//! Small verified operations on text that the rest of the library builds on.

use vstd::prelude::*;

verus! {

/// The characters of `s`, in order.
pub fn chars_of(s: &str) -> (v: Vec<char>)
    ensures
        v@ == s@,
{
    let mut v: Vec<char> = Vec::new();
    for c in it: s.chars()
        invariant
            v@ == it.seq().take(it.index() as int),
            it.seq() == s@,
            it.index() <= s@.len(),
    {
        v.push(c);
        assert(v@ == it.seq().take(it.index() as int + 1));
    }
    v
}

} // verus!

verus! {

/// Whether two texts are the same sequence of characters.
pub fn str_eq(a: &str, b: &str) -> (r: bool)
    ensures
        r == (a@ == b@),
{
    let x = chars_of(a);
    let y = chars_of(b);
    if x.len() != y.len() {
        return false;
    }
    let mut i: usize = 0;
    while i < x.len()
        invariant
            x@ == a@,
            y@ == b@,
            x@.len() == y@.len(),
            i <= x@.len(),
            forall|j: int| 0 <= j < i ==> x@[j] == y@[j],
        decreases x@.len() - i,
    {
        if x[i] != y[i] {
            return false;
        }
        i = i + 1;
    }
    assert(x@ == y@);
    true
}

/// `a` followed by `b`, as a new string.
pub fn concat(a: &str, b: &str) -> (r: String)
    ensures
        r@ == a@ + b@,
{
    let mut r = String::from_str(a);
    r.append(b);
    r
}

} // verus!

verus! {

/// `s` without its leading slashes.
pub open spec fn spec_trim_start_slashes(s: Seq<char>) -> Seq<char>
    decreases s.len(),
{
    if s.len() > 0 && s[0] == '/' {
        spec_trim_start_slashes(s.drop_first())
    } else {
        s
    }
}

/// `s` without its trailing slashes.
pub open spec fn spec_trim_end_slashes(s: Seq<char>) -> Seq<char>
    decreases s.len(),
{
    if s.len() > 0 && s.last() == '/' {
        spec_trim_end_slashes(s.drop_last())
    } else {
        s
    }
}

/// `s` without its leading and then its trailing slashes.
pub open spec fn spec_trim_slashes(s: Seq<char>) -> Seq<char> {
    spec_trim_end_slashes(spec_trim_start_slashes(s))
}

/// `s` without its leading and trailing slashes.
pub fn trim_slashes(s: &str) -> (t: &str)
    ensures
        t@ == spec_trim_slashes(s@),
{
    let chars = chars_of(s);
    let len = chars.len();
    let mut lo: usize = 0;
    assert(s@.subrange(0, len as int) =~= s@);
    while lo < len && chars[lo] == '/'
        invariant
            chars@ == s@,
            len == chars@.len(),
            lo <= len,
            spec_trim_start_slashes(s@) == spec_trim_start_slashes(s@.subrange(lo as int, len as int)),
        decreases len - lo,
    {
        let ghost rest = s@.subrange(lo as int, len as int);
        assert(rest.drop_first() =~= s@.subrange(lo + 1, len as int));
        lo = lo + 1;
    }
    let ghost start = s@.subrange(lo as int, len as int);
    assert(spec_trim_start_slashes(s@) == start);
    let mut hi: usize = len;
    while hi > lo && chars[hi - 1] == '/'
        invariant
            chars@ == s@,
            len == chars@.len(),
            lo <= hi <= len,
            start == s@.subrange(lo as int, len as int),
            spec_trim_end_slashes(start) == spec_trim_end_slashes(s@.subrange(lo as int, hi as int)),
        decreases hi,
    {
        let ghost cur = s@.subrange(lo as int, hi as int);
        assert(cur.drop_last() =~= s@.subrange(lo as int, hi - 1));
        hi = hi - 1;
    }
    s.substring_char(lo, hi)
}

} // verus!
