//! AES-256-GCM over a 32-byte key and a 12-byte nonce, with no associated
//! data. The sealed form is the ciphertext followed by its 16-byte tag.

use vstd::prelude::*;

verus! {

/// `aes_gcm::Error`: the cipher's one error, which says nothing of its
/// cause. It is carried, never read.
#[verifier::external_type_specification]
#[verifier::external_body]
pub struct ExCipherError(aes_gcm::Error);

/// Bytes in a key.
pub const KEY_LEN: usize = 32;

/// Bytes in a nonce.
pub const NONCE_LEN: usize = 12;

/// Bytes in an authentication tag.
pub const TAG_LEN: usize = 16;

/// The longest plaintext that the cipher seals, in bytes.
pub const MAX_PLAINTEXT_LEN: u64 = 0x10_0000_0000;

/// What sealing `plaintext` under `key` and `nonce` gives, where it gives
/// anything: what `Aead::encrypt` of `aes_gcm::Aes256Gcm` returns, an
/// error read as `None`.
pub uninterp spec fn aes_gcm_sealed(key: Seq<u8>, nonce: Seq<u8>, plaintext: Seq<u8>) -> Option<
    Seq<u8>,
>;

/// The plaintext that `sealed` authenticates and hides under `key` and
/// `nonce`, where the tag matches: what `Aead::decrypt` of
/// `aes_gcm::Aes256Gcm` returns, an error read as `None`.
pub uninterp spec fn aes_gcm_opened(key: Seq<u8>, nonce: Seq<u8>, sealed: Seq<u8>) -> Option<
    Seq<u8>,
>;

/// Calls `Aead::encrypt` of `aes_gcm::Aes256Gcm`, on a cipher made from
/// the key.
///
/// Trusted: the call fails exactly when the plaintext is longer than the
/// cipher's limit; what it returns is the sealed form, 16 bytes longer
/// than the plaintext, and opening that form under the same key and
/// nonce gives the plaintext back. Key and nonce of another length make
/// the call panic, and so does a plaintext whose sealed form is more
/// than a buffer holds, which `requires` rules out.
#[verifier::external_body]
pub(crate) fn aes_gcm_encrypt(key: &[u8], nonce: &[u8], plaintext: &[u8]) -> (out: Result<
    Vec<u8>,
    aes_gcm::Error,
>)
    requires
        key@.len() == KEY_LEN,
        nonce@.len() == NONCE_LEN,
        plaintext@.len() + TAG_LEN <= isize::MAX,
    ensures
        out is Ok <==> plaintext@.len() <= MAX_PLAINTEXT_LEN,
        match out {
            Ok(sealed) => {
                &&& aes_gcm_sealed(key@, nonce@, plaintext@) == Some(sealed@)
                &&& sealed@.len() == plaintext@.len() + TAG_LEN
                &&& aes_gcm_opened(key@, nonce@, sealed@) == Some(plaintext@)
            },
            Err(_) => aes_gcm_sealed(key@, nonce@, plaintext@) is None,
        },
{
    let key = aes_gcm::Key::<aes_gcm::Aes256Gcm>::from_slice(key);
    let cipher = <aes_gcm::Aes256Gcm as aes_gcm::KeyInit>::new(key);
    aes_gcm::aead::Aead::encrypt(&cipher, aes_gcm::Nonce::from_slice(nonce), plaintext)
}

/// Calls `Aead::decrypt` of `aes_gcm::Aes256Gcm`, on a cipher made from
/// the key.
///
/// Trusted: the call succeeds exactly where the sealed form opens under
/// the key and nonce, and then returns the plaintext, which is the
/// sealed form less its 16 bytes of tag. Key and nonce of another length
/// make the call panic, which `requires` rules out.
#[verifier::external_body]
pub(crate) fn aes_gcm_decrypt(key: &[u8], nonce: &[u8], sealed: &[u8]) -> (out: Result<
    Vec<u8>,
    aes_gcm::Error,
>)
    requires
        key@.len() == KEY_LEN,
        nonce@.len() == NONCE_LEN,
    ensures
        match out {
            Ok(plaintext) => {
                &&& aes_gcm_opened(key@, nonce@, sealed@) == Some(plaintext@)
                &&& sealed@.len() == plaintext@.len() + TAG_LEN
            },
            Err(_) => aes_gcm_opened(key@, nonce@, sealed@) is None,
        },
{
    let key = aes_gcm::Key::<aes_gcm::Aes256Gcm>::from_slice(key);
    let cipher = <aes_gcm::Aes256Gcm as aes_gcm::KeyInit>::new(key);
    aes_gcm::aead::Aead::decrypt(&cipher, aes_gcm::Nonce::from_slice(nonce), sealed)
}

/// Calls `AeadCore::generate_nonce` of `aes_gcm` on the operating
/// system's random source. Nothing is claimed of the bytes.
#[verifier::external_body]
pub(crate) fn random_nonce() -> (nonce: [u8; 12]) {
    <aes_gcm::Aes256Gcm as aes_gcm::AeadCore>::generate_nonce(&mut aes_gcm::aead::OsRng).into()
}

} // verus!
