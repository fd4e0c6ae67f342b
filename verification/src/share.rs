//! Shares: a directory or file of a Filen drive made reachable through the
//! relay, and the identifiers by which they are addressed.

use vstd::prelude::*;
use crate::ids::{
    hyphenated, is_hyphen_position, is_hyphenated_v4, is_lower_hex, lemma_first_digits_are_top_bits,
    lemma_hex_chars, random_uuid_hyphenated, spec_hyphenated, spec_nibble, spec_simple_digits,
};
use crate::text::chars_of;

verus! {

/// The identifier of a share. New shares get a random hyphenated
/// identifier; URLs address a share by its short form, the part before
/// the first hyphen.
#[derive(Clone, Debug)]
pub struct ShareId(String);

impl View for ShareId {
    type V = Seq<char>;

    closed spec fn view(&self) -> Seq<char> {
        self.0@
    }
}

/// `short` is the part of `id` before its first hyphen.
pub open spec fn is_short_form(id: Seq<char>, short: Seq<char>) -> bool {
    &&& short.len() < id.len()
    &&& id[short.len() as int] == '-'
    &&& short == id.take(short.len() as int)
    &&& !short.contains('-')
}

impl ShareId {
    /// A fresh random identifier.
    pub fn new() -> (id: ShareId)
        ensures
            is_hyphenated_v4(id@),
    {
        ShareId(random_uuid_hyphenated())
    }

    /// The identifier with this 128-bit value, in hyphenated lowercase form,
    /// as `ShareId::new` writes the value it draws.
    pub fn from_uuid_value(value: u128) -> (id: ShareId)
        ensures
            id@ == spec_hyphenated(value),
    {
        ShareId(hyphenated(value))
    }

    /// The identifier as text.
    pub fn as_str(&self) -> (s: &str)
        ensures
            s@ == self@,
    {
        self.0.as_str()
    }

    /// The short form of the identifier: the text before its first hyphen.
    pub fn short(&self) -> (s: &str)
        requires
            self@.contains('-'),
        ensures
            is_short_form(self@, s@),
    {
        let text = self.0.as_str();
        let chars = chars_of(text);
        let mut i: usize = 0;
        while chars[i] != '-'
            invariant
                chars@ == self@,
                self@.contains('-'),
                0 <= i < chars@.len(),
                forall|j: int| 0 <= j < i ==> chars@[j] != '-',
            decreases chars@.len() - i,
        {
            if i == chars.len() - 1 {
                assert(forall|j: int| 0 <= j < chars@.len() ==> chars@[j] != '-');
                assert(false);
            }
            i = i + 1;
        }
        let s = text.substring_char(0, i);
        assert(!s@.contains('-')) by {
            assert(forall|j: int| 0 <= j < s@.len() ==> s@[j] == chars@[j]);
        }
        s
    }
}

/// A share: what it serves, how, and on whose behalf.
#[derive(Clone, Debug, PartialEq)]
pub struct Share {
    pub id: ShareId,
    /// The path of the shared directory or file in the owner's drive.
    pub root: String,
    pub read_only: bool,
    /// The password that guards the share, if any.
    pub password: Option<String>,
    /// The email address of the Filen account that owns the share.
    pub filen_email: String,
    /// The owner's serialized client, with which the share is served.
    pub filen_stringified_client: String,
}

impl Share {
    /// A new share with a fresh random identifier.
    pub fn create(
        root: String,
        read_only: bool,
        password: Option<String>,
        filen_email: String,
        filen_stringified_client: String,
    ) -> (s: Share)
        ensures
            is_hyphenated_v4(s.id@),
            s.root == root,
            s.read_only == read_only,
            s.password == password,
            s.filen_email == filen_email,
            s.filen_stringified_client == filen_stringified_client,
    {
        Share {
            id: ShareId::new(),
            root,
            read_only,
            password,
            filen_email,
            filen_stringified_client,
        }
    }
}

impl PartialEq for ShareId {
    fn eq(&self, other: &ShareId) -> (b: bool) {
        self.0 == other.0
    }
}

impl Eq for ShareId {
}

impl vstd::std_specs::cmp::PartialEqSpecImpl for ShareId {
    open spec fn obeys_eq_spec() -> bool {
        true
    }

    open spec fn eq_spec(&self, other: &ShareId) -> bool {
        self@ == other@
    }
}

impl From<String> for ShareId {
    fn from(value: String) -> (id: ShareId) {
        ShareId(value)
    }
}

impl vstd::std_specs::convert::FromSpecImpl<String> for ShareId {
    open spec fn obeys_from_spec() -> bool {
        true
    }

    closed spec fn from_spec(v: String) -> ShareId {
        ShareId(v)
    }
}

/// An identifier made from a text is that text: `ShareId::from(s).as_str()`
/// gives `s` back.
pub proof fn lemma_from_keeps_text(v: String)
    ensures
        <ShareId as vstd::std_specs::convert::FromSpec<String>>::obeys_from_spec(),
        <ShareId as vstd::std_specs::convert::FromSpec<String>>::from_spec(v)@ == v@,
{
}

/// The short form of a fresh identifier is its first eight hexadecimal
/// digits, so every fresh identifier has one.
pub proof fn lemma_short_form_of_new_id(id: Seq<char>, short: Seq<char>)
    requires
        is_hyphenated_v4(id),
    ensures
        id.contains('-'),
        is_short_form(id, short) ==> short == id.take(8),
        is_short_form(id, id.take(8)),
{
    assert(is_hyphen_position(8));
    assert(id[8] == '-');
    if is_short_form(id, short) {
        if short.len() < 8 {
            assert(is_lower_hex(id[short.len() as int]));
        } else if short.len() > 8 {
            assert(short[8] == id[8]);
            assert(short.contains('-'));
        }
    }
    assert forall|j: int| 0 <= j < 8 implies id.take(8)[j] != '-' by {
        assert(is_lower_hex(id[j]));
    }
}

/// The short form of the identifier with value `v` is the top 32 bits of
/// `v` in hexadecimal: the identifiers of two values have the same short
/// form exactly when those bits agree, so the short form varies with the
/// value drawn.
pub proof fn lemma_short_form_of_value(a: u128, b: u128)
    ensures
        is_short_form(spec_hyphenated(a), spec_simple_digits(a).take(8)),
        spec_hyphenated(a).take(8) == spec_simple_digits(a).take(8),
        (spec_simple_digits(a).take(8) == spec_simple_digits(b).take(8)) <==> (a >> 96u32 == b
            >> 96u32),
{
    lemma_first_digits_are_top_bits(a, b);
    let d = spec_simple_digits(a);
    let h = spec_hyphenated(a);
    let short = d.take(8);
    assert(h.take(8) =~= short);
    assert(h[8] == '-');
    assert forall|j: int| 0 <= j < 8 implies short[j] != '-' by {
        let sh = ((31 - j) * 4) as u32;
        assert((a >> sh) & 0xf < 16) by (bit_vector);
        assert(spec_nibble(a, j) < 16);
        lemma_hex_chars(spec_nibble(a, j), spec_nibble(a, j));
    }
}

} // verus!
