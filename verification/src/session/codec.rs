//! The byte form of a session's fields: an `rkyv` archive of the subject,
//! the expiry and the request-forgery token, in that order.
//!
//! An archive holds the three fields in place at its end, 8 bytes each,
//! and before them each text that is longer than 8 bytes. It records the
//! length of such a text in 30 bits and its offset in 32.

use vstd::prelude::*;

verus! {

/// `rkyv::rancor::Error`: why archiving or restoring failed. It is
/// carried, never read.
#[verifier::external_type_specification]
#[verifier::external_body]
pub struct ExArchiveError(rkyv::rancor::Error);

/// The archive of the three fields, where they can be archived: what
/// `rkyv::to_bytes` returns for them as a tuple, an error read as `None`.
pub uninterp spec fn rkyv_archived(sub: Seq<char>, exp: i64, csrf_token: Seq<char>) -> Option<
    Seq<u8>,
>;

/// The three fields that `bytes` archive, where `bytes` are a valid
/// archive of three such fields: what `rkyv::from_bytes` returns for
/// them, an error read as `None`.
pub uninterp spec fn rkyv_restored(bytes: Seq<u8>) -> Option<(Seq<char>, i64, Seq<char>)>;

/// Whether an aligned buffer can hold `len` bytes: `rkyv`'s buffers stop
/// 15 bytes short of `isize::MAX`.
pub open spec fn archive_fits(len: nat) -> bool {
    len + 15 <= isize::MAX
}

/// The longest text that an archive records, in bytes of UTF-8: what 30
/// bits count.
pub const MAX_TEXT_LEN: usize = 0x3FFF_FFFF;

/// The bytes of two texts that one archive holds at most. With the
/// fields and the padding, 31 bytes at most, the archive then stays
/// within what 31 bits count: every offset in it can be recorded, and an
/// aligned buffer holds it on any machine.
pub const MAX_TEXTS_LEN: usize = 0x7FFF_FFD0;

/// The fewest bytes in an archive: the three fields in place.
pub const MIN_ARCHIVE_LEN: usize = 24;

/// Whether two texts of `sub_len` and `csrf_len` bytes go into one
/// archive.
pub open spec fn texts_fit(sub_len: nat, csrf_len: nat) -> bool {
    &&& sub_len <= MAX_TEXT_LEN
    &&& csrf_len <= MAX_TEXT_LEN
    &&& sub_len + csrf_len <= MAX_TEXTS_LEN
}

/// Calls `rkyv::to_bytes` on the three fields as a tuple.
///
/// Trusted: the bytes returned are the archive of the fields, no more
/// than an aligned buffer holds, and restoring them gives the fields
/// back. Longer texts would be archived under a length or an offset cut
/// to 32 bits, which `requires` rules out.
#[verifier::external_body]
pub(crate) fn rkyv_to_bytes(sub: &str, exp: i64, csrf_token: &str) -> (out: Result<
    Vec<u8>,
    rkyv::rancor::Error,
>)
    requires
        texts_fit(
            vstd::utf8::encode_utf8(sub@).len(),
            vstd::utf8::encode_utf8(csrf_token@).len(),
        ),
    ensures
        match out {
            Ok(bytes) => {
                &&& rkyv_archived(sub@, exp, csrf_token@) == Some(bytes@)
                &&& rkyv_restored(bytes@) == Some((sub@, exp, csrf_token@))
                &&& archive_fits(bytes@.len())
            },
            Err(_) => rkyv_archived(sub@, exp, csrf_token@) is None,
        },
{
    let fields = (sub.to_owned(), exp, csrf_token.to_owned());
    let bytes = rkyv::to_bytes::<rkyv::rancor::Error>(&fields)?;
    Ok(bytes.into_vec())
}

/// Calls `rkyv::from_bytes` for a tuple of three such fields, on a copy
/// of `bytes` that is aligned as archives must be.
///
/// Trusted: the call succeeds exactly on valid archives, and then returns
/// the fields archived; a valid archive has room for the three fields in
/// place. Making the copy panics on more bytes than an aligned buffer
/// holds, which `requires` rules out.
#[verifier::external_body]
pub(crate) fn rkyv_from_bytes(bytes: &[u8]) -> (out: Result<
    (String, i64, String),
    rkyv::rancor::Error,
>)
    requires
        archive_fits(bytes@.len()),
    ensures
        match out {
            Ok(fields) => {
                &&& rkyv_restored(bytes@) == Some((fields.0@, fields.1, fields.2@))
                &&& bytes@.len() >= MIN_ARCHIVE_LEN
            },
            Err(_) => rkyv_restored(bytes@) is None,
        },
{
    let mut aligned = rkyv::util::AlignedVec::<16>::with_capacity(bytes.len());
    aligned.extend_from_slice(bytes);
    rkyv::from_bytes::<(String, i64, String), rkyv::rancor::Error>(&aligned)
}

} // verus!
