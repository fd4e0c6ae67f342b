//! Identifiers from the `uuid` crate: random version-4 identifiers in
//! their two textual forms, and the parsing of user input as an identifier.

use vstd::prelude::*;

verus! {

/// A lowercase hexadecimal digit, as the `uuid` crate writes them.
pub open spec fn is_lower_hex(c: char) -> bool {
    ('0' <= c && c <= '9') || ('a' <= c && c <= 'f')
}

/// The variant digit of an RFC 4122 identifier (`10xx` in binary).
pub open spec fn is_rfc4122_variant_digit(c: char) -> bool {
    c == '8' || c == '9' || c == 'a' || c == 'b'
}

/// Positions of the four hyphens in the hyphenated form.
pub open spec fn is_hyphen_position(i: int) -> bool {
    i == 8 || i == 13 || i == 18 || i == 23
}

/// `s` is a random (version 4) identifier in hyphenated lowercase form,
/// such as `67e55044-10b1-426f-9247-bb680e5fe0c8`.
pub open spec fn is_hyphenated_v4(s: Seq<char>) -> bool {
    &&& s.len() == 36
    &&& forall|i: int| 0 <= i < 36 ==> (if is_hyphen_position(i) {
        s[i] == '-'
    } else {
        is_lower_hex(#[trigger] s[i])
    })
    &&& s[14] == '4'
    &&& is_rfc4122_variant_digit(s[19])
}

/// `s` is a random (version 4) identifier in simple lowercase form:
/// 32 hexadecimal digits without hyphens.
pub open spec fn is_simple_v4(s: Seq<char>) -> bool {
    &&& s.len() == 32
    &&& forall|i: int| 0 <= i < 32 ==> is_lower_hex(#[trigger] s[i])
    &&& s[12] == '4'
    &&& is_rfc4122_variant_digit(s[16])
}

/// The lowercase hexadecimal digit of `n` (below 16).
pub open spec fn spec_hex_char(n: u128) -> char {
    if n == 0 {
        '0'
    } else     if n == 1 {
        '1'
    } else     if n == 2 {
        '2'
    } else     if n == 3 {
        '3'
    } else     if n == 4 {
        '4'
    } else     if n == 5 {
        '5'
    } else     if n == 6 {
        '6'
    } else     if n == 7 {
        '7'
    } else     if n == 8 {
        '8'
    } else     if n == 9 {
        '9'
    } else     if n == 10 {
        'a'
    } else     if n == 11 {
        'b'
    } else     if n == 12 {
        'c'
    } else     if n == 13 {
        'd'
    } else     if n == 14 {
        'e'
    } else {
        'f'
    }
}

/// The `i`-th hexadecimal digit of `value`, counted from the most
/// significant one (0 to 31).
pub open spec fn spec_nibble(value: u128, i: int) -> u128 {
    (value >> (((31 - i) * 4) as u32)) & 0xf
}

/// The 32 lowercase hexadecimal digits of `value`, most significant first:
/// the simple form of the identifier with that value.
pub open spec fn spec_simple_digits(value: u128) -> Seq<char> {
    Seq::new(32, |i: int| spec_hex_char(spec_nibble(value, i)))
}

/// The hyphenated form of the identifier with this value: its digits in
/// groups of 8, 4, 4, 4 and 12, joined by hyphens.
pub open spec fn spec_hyphenated(value: u128) -> Seq<char> {
    let d = spec_simple_digits(value);
    d.subrange(0, 8) + seq!['-'] + d.subrange(8, 12) + seq!['-'] + d.subrange(12, 16) + seq!['-']
        + d.subrange(16, 20) + seq!['-'] + d.subrange(20, 32)
}

fn hex_digit_text(n: u128) -> (t: &'static str)
    requires
        n < 16,
    ensures
        t@ == seq![spec_hex_char(n)],
{
    if n == 0 {
        proof {
            reveal_strlit("0");
        }
        "0"
    } else if n == 1 {
        proof {
            reveal_strlit("1");
        }
        "1"
    } else if n == 2 {
        proof {
            reveal_strlit("2");
        }
        "2"
    } else if n == 3 {
        proof {
            reveal_strlit("3");
        }
        "3"
    } else if n == 4 {
        proof {
            reveal_strlit("4");
        }
        "4"
    } else if n == 5 {
        proof {
            reveal_strlit("5");
        }
        "5"
    } else if n == 6 {
        proof {
            reveal_strlit("6");
        }
        "6"
    } else if n == 7 {
        proof {
            reveal_strlit("7");
        }
        "7"
    } else if n == 8 {
        proof {
            reveal_strlit("8");
        }
        "8"
    } else if n == 9 {
        proof {
            reveal_strlit("9");
        }
        "9"
    } else if n == 10 {
        proof {
            reveal_strlit("a");
        }
        "a"
    } else if n == 11 {
        proof {
            reveal_strlit("b");
        }
        "b"
    } else if n == 12 {
        proof {
            reveal_strlit("c");
        }
        "c"
    } else if n == 13 {
        proof {
            reveal_strlit("d");
        }
        "d"
    } else if n == 14 {
        proof {
            reveal_strlit("e");
        }
        "e"
    } else {
        proof {
            reveal_strlit("f");
        }
        "f"
    }
}

/// The simple form of the identifier with this value.
pub fn simple_digits(value: u128) -> (s: String)
    ensures
        s@ == spec_simple_digits(value),
{
    let mut s = String::new();
    let mut i: usize = 0;
    while i < 32
        invariant
            i <= 32,
            s@ == spec_simple_digits(value).take(i as int),
        decreases 32 - i,
    {
        let nibble = (value >> (((31 - i) * 4) as u32)) & 0xf;
        assert(nibble == spec_nibble(value, i as int));
        let shift = ((31 - i) * 4) as u32;
        assert((value >> shift) & 0xf < 16) by (bit_vector);
        let digit = hex_digit_text(nibble);
        s.append(digit);
        assert(s@ =~= spec_simple_digits(value).take(i + 1));
        i = i + 1;
    }
    assert(spec_simple_digits(value).take(32) =~= spec_simple_digits(value));
    s
}

/// The hyphenated form of the identifier with this value, as
/// `uuid::Uuid::from_u128(value).to_string()` writes it.
pub fn hyphenated(value: u128) -> (s: String)
    ensures
        s@ == spec_hyphenated(value),
{
    let digits = simple_digits(value);
    let d = digits.as_str();
    let mut s = String::from_str(d.substring_char(0, 8));
    s.append("-");
    s.append(d.substring_char(8, 12));
    s.append("-");
    s.append(d.substring_char(12, 16));
    s.append("-");
    s.append(d.substring_char(16, 20));
    s.append("-");
    s.append(d.substring_char(20, 32));
    proof {
        reveal_strlit("-");
        assert("-"@ =~= seq!['-']);
    }
    assert(s@ =~= spec_hyphenated(value));
    s
}

/// No hexadecimal digit is a hyphen, and different digits below 16 are
/// written differently.
pub proof fn lemma_hex_chars(a: u128, b: u128)
    requires
        a < 16,
        b < 16,
    ensures
        spec_hex_char(a) != '-',
        is_lower_hex(spec_hex_char(a)),
        spec_hex_char(a) == spec_hex_char(b) <==> a == b,
{
}

proof fn lemma_top_nibbles(a: u128, b: u128)
    by (bit_vector)
    ensures
        ((a >> 124u32) & 0xf == (b >> 124u32) & 0xf && (a >> 120u32) & 0xf == (b >> 120u32) & 0xf
            && (a >> 116u32) & 0xf == (b >> 116u32) & 0xf && (a >> 112u32) & 0xf == (b >> 112u32)
            & 0xf && (a >> 108u32) & 0xf == (b >> 108u32) & 0xf && (a >> 104u32) & 0xf == (b
            >> 104u32) & 0xf && (a >> 100u32) & 0xf == (b >> 100u32) & 0xf && (a >> 96u32) & 0xf
            == (b >> 96u32) & 0xf) <==> (a >> 96u32 == b >> 96u32),
{
}

/// The first eight digits of two identifiers are the same exactly when the
/// top 32 bits of their values are: the digits are those bits in hex.
pub proof fn lemma_first_digits_are_top_bits(a: u128, b: u128)
    ensures
        (spec_simple_digits(a).take(8) == spec_simple_digits(b).take(8)) <==> (a >> 96u32 == b
            >> 96u32),
{
    lemma_top_nibbles(a, b);
    let da = spec_simple_digits(a).take(8);
    let db = spec_simple_digits(b).take(8);
    assert forall|i: int| 0 <= i < 8 implies spec_nibble(a, i) < 16 && spec_nibble(b, i) < 16 by {
        let sh = ((31 - i) * 4) as u32;
        assert((a >> sh) & 0xf < 16) by (bit_vector);
        assert((b >> sh) & 0xf < 16) by (bit_vector);
    }
    assert forall|i: int| 0 <= i < 8 implies (da[i] == db[i] <==> spec_nibble(a, i) == spec_nibble(b, i)) by {
        lemma_hex_chars(spec_nibble(a, i), spec_nibble(b, i));
    }
    assert(spec_nibble(a, 0) == (a >> 124u32) & 0xf);
    assert(spec_nibble(a, 1) == (a >> 120u32) & 0xf);
    assert(spec_nibble(a, 2) == (a >> 116u32) & 0xf);
    assert(spec_nibble(a, 3) == (a >> 112u32) & 0xf);
    assert(spec_nibble(a, 4) == (a >> 108u32) & 0xf);
    assert(spec_nibble(a, 5) == (a >> 104u32) & 0xf);
    assert(spec_nibble(a, 6) == (a >> 100u32) & 0xf);
    assert(spec_nibble(a, 7) == (a >> 96u32) & 0xf);
    assert(spec_nibble(b, 0) == (b >> 124u32) & 0xf);
    assert(spec_nibble(b, 1) == (b >> 120u32) & 0xf);
    assert(spec_nibble(b, 2) == (b >> 116u32) & 0xf);
    assert(spec_nibble(b, 3) == (b >> 112u32) & 0xf);
    assert(spec_nibble(b, 4) == (b >> 108u32) & 0xf);
    assert(spec_nibble(b, 5) == (b >> 104u32) & 0xf);
    assert(spec_nibble(b, 6) == (b >> 100u32) & 0xf);
    assert(spec_nibble(b, 7) == (b >> 96u32) & 0xf);
    if da == db {
        assert(forall|i: int| 0 <= i < 8 ==> da[i] == db[i]);
    }
    if a >> 96u32 == b >> 96u32 {
        assert(da =~= db);
    }
}

/// What `uuid::Uuid::try_parse` makes of a text, as the 128-bit value of
/// the identifier (`Uuid::as_u128`), or `None` where it refuses the text.
pub uninterp spec fn parsed_uuid(text: Seq<char>) -> Option<u128>;

/// Calls `uuid::Uuid::new_v4` and formats the result with `Display`.
/// Trusted: the result is 36 characters, lowercase hexadecimal digits with
/// hyphens at positions 8, 13, 18 and 23, version digit `4` and an RFC 4122
/// variant digit (`new_v4` masks those bits; `Display` writes the hyphenated
/// lowercase form). Which identifier comes out is random, and not stated.
/// `new_v4` panics only where the system's random source fails.
#[verifier::external_body]
pub(crate) fn random_uuid_hyphenated() -> (s: String)
    ensures
        is_hyphenated_v4(s@),
{
    uuid::Uuid::new_v4().to_string()
}

/// Calls `uuid::Uuid::new_v4` and formats the result with `as_simple`.
/// Trusted: the result is 32 lowercase hexadecimal digits, version digit `4`
/// at position 12 and an RFC 4122 variant digit at position 16. Which
/// identifier comes out is random, and not stated. `new_v4` panics only
/// where the system's random source fails.
#[verifier::external_body]
pub(crate) fn random_uuid_simple() -> (s: String)
    ensures
        is_simple_v4(s@),
{
    uuid::Uuid::new_v4().as_simple().to_string()
}

/// Calls `uuid::Uuid::try_parse` and turns the identifier into its 128-bit
/// value. Trusted: the result is `parsed_uuid` of the text; which texts are
/// accepted (simple, hyphenated, braced and URN forms) is left to that name.
#[verifier::external_body]
pub(crate) fn parse_uuid(text: &str) -> (r: Option<u128>)
    ensures
        r == parsed_uuid(text@),
{
    match uuid::Uuid::try_parse(text) {
        Ok(id) => Some(id.as_u128()),
        Err(_) => None,
    }
}

} // verus!
