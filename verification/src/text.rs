//! Comparisons and cuts on strings, by character.

use vstd::prelude::*;

verus! {

/// The characters of a string that may be absent.
pub open spec fn text_of(text: Option<&str>) -> Option<Seq<char>> {
    match text {
        Some(t) => Some(t@),
        None => None,
    }
}

/// Whether two strings hold the same characters. The comparison runs over
/// the UTF-8 bytes, which determine the characters.
pub fn same_text(a: &str, b: &str) -> (same: bool)
    ensures
        same == (a@ == b@),
{
    let x = a.as_bytes();
    let y = b.as_bytes();
    if x.len() != y.len() {
        return false;
    }
    let n: usize = x.len();
    let mut i: usize = 0;
    while i < n
        invariant
            i <= n,
            n == x@.len(),
            n == y@.len(),
            x@ == vstd::utf8::encode_utf8(a@),
            y@ == vstd::utf8::encode_utf8(b@),
            forall|j: int| 0 <= j < i ==> x@[j] == y@[j],
        decreases n - i,
    {
        if x[i] != y[i] {
            return false;
        }
        i += 1;
    }
    assert(x@ =~= y@);
    proof {
        vstd::utf8::encode_utf8_decode_utf8(a@);
        vstd::utf8::encode_utf8_decode_utf8(b@);
    }
    true
}

/// Whether `text` begins with the characters of `prefix`.
pub fn starts_with(text: &str, prefix: &str) -> (begins: bool)
    ensures
        begins == prefix@.is_prefix_of(text@),
{
    let m: usize = prefix.unicode_len();
    let n: usize = text.unicode_len();
    if m > n {
        return false;
    }
    let head = text.substring_char(0, m);
    let begins = same_text(head, prefix);
    assert(begins == (prefix@ =~= text@.subrange(0, prefix@.len() as int)));
    begins
}

/// What is left of `text` behind `prefix`, where `text` begins with it.
pub fn strip_prefix<'a>(text: &'a str, prefix: &str) -> (rest: Option<&'a str>)
    ensures
        rest is Some <==> prefix@.is_prefix_of(text@),
        rest matches Some(r) ==> r@ == text@.skip(prefix@.len() as int),
{
    if !starts_with(text, prefix) {
        return None;
    }
    let m: usize = prefix.unicode_len();
    let n: usize = text.unicode_len();
    let rest = text.substring_char(m, n);
    assert(rest@ =~= text@.skip(prefix@.len() as int));
    Some(rest)
}

} // verus!
