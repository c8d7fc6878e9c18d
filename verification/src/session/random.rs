//! Characters drawn at random.

use vstd::prelude::*;

verus! {

/// A letter or a digit of ASCII.
pub open spec fn is_alphanumeric(c: char) -> bool {
    ||| '0' <= c <= '9'
    ||| 'A' <= c <= 'Z'
    ||| 'a' <= c <= 'z'
}

/// Draws `len` characters with `rand`'s `Alphanumeric` from the thread's
/// generator.
///
/// Trusted: there are `len` of them, each a letter or a digit of ASCII.
/// Which ones is left open: two calls may differ. More characters than a
/// buffer holds make the call panic, which `requires` rules out.
#[verifier::external_body]
pub(crate) fn random_alphanumeric(len: usize) -> (text: String)
    requires
        len <= isize::MAX,
    ensures
        text@.len() == len,
        forall|i: int| 0 <= i < text@.len() ==> is_alphanumeric(#[trigger] text@[i]),
{
    let letters = rand::Rng::sample_iter(rand::rng(), rand::distr::Alphanumeric);
    letters.take(len).map(char::from).collect()
}

} // verus!
