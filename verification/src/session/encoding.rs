//! The text form of a token: standard, padded base64.

use vstd::prelude::*;

verus! {

/// `base64::DecodeError`: why a text is no base64. It is carried, never
/// read.
#[verifier::external_type_specification]
#[verifier::external_body]
pub struct ExDecodeError(base64::DecodeError);

/// The standard, padded base64 text of `bytes`: what
/// `base64::Engine::encode` returns for them on the `STANDARD` engine.
pub uninterp spec fn base64_encoded(bytes: Seq<u8>) -> Seq<char>;

/// The bytes that `text` stands for in standard, padded base64, where it
/// stands for any: what `base64::Engine::decode` returns for it on the
/// `STANDARD` engine, an error read as `None`.
pub uninterp spec fn base64_decoded(text: Seq<char>) -> Option<Seq<u8>>;

/// Characters in the padded base64 text for `len` bytes: four for every
/// three bytes begun.
pub open spec fn base64_len(len: nat) -> nat {
    4 * ((len + 2) / 3)
}

/// Whether base64 text for `len` bytes can be allocated: four characters
/// for every three bytes begun, in a buffer no larger than `isize::MAX`.
pub open spec fn base64_fits(len: nat) -> bool {
    (len / 3 + 1) * 4 <= isize::MAX
}

/// Calls `base64::Engine::encode` on the `STANDARD` engine.
///
/// Trusted: the text returned is the encoding of `bytes`, four
/// characters for every three bytes begun, and decoding it with the same
/// engine gives `bytes` back. The call panics when the length of the
/// text overflows, which `requires` rules out.
#[verifier::external_body]
pub(crate) fn base64_encode(bytes: &[u8]) -> (text: String)
    requires
        base64_fits(bytes@.len()),
    ensures
        text@ == base64_encoded(bytes@),
        text@.len() == base64_len(bytes@.len()),
        base64_decoded(text@) == Some(bytes@),
{
    base64::Engine::encode(&base64::prelude::BASE64_STANDARD, bytes)
}

/// Calls `base64::Engine::decode` on the `STANDARD` engine.
///
/// Trusted: the call succeeds exactly on the texts that stand for bytes,
/// and then returns those bytes.
#[verifier::external_body]
pub(crate) fn base64_decode(text: &str) -> (out: Result<Vec<u8>, base64::DecodeError>)
    ensures
        match out {
            Ok(bytes) => base64_decoded(text@) == Some(bytes@),
            Err(_) => base64_decoded(text@) is None,
        },
{
    base64::Engine::decode(&base64::prelude::BASE64_STANDARD, text)
}

} // verus!
