//! Script assets that are served under a name which holds their hash, so
//! that a changed file gets a new address.

use vstd::prelude::*;

use crate::errors::{GumboError, IoErrorKind};
use crate::text::starts_with;

verus! {

/// Bytes in a SHA3-256 digest.
pub const DIGEST_LEN: usize = 32;

/// Characters of the hash that an asset's address holds.
pub const PATH_HASH_LEN: usize = 10;

/// The SHA3-256 digest of `bytes`: what `Digest::digest` of
/// `sha3::Sha3_256` returns for them.
pub uninterp spec fn sha3_256(bytes: Seq<u8>) -> Seq<u8>;

/// The lower-case hexadecimal digit for a number below 16.
pub open spec fn hex_digit(nibble: int) -> char {
    seq!['0', '1', '2', '3', '4', '5', '6', '7', '8', '9', 'a', 'b', 'c', 'd', 'e', 'f'][nibble]
}

/// Bytes in lower-case hexadecimal: two digits for each, the high half
/// first.
pub open spec fn hex_lower(bytes: Seq<u8>) -> Seq<char> {
    Seq::new(
        2 * bytes.len(),
        |i: int|
            if i % 2 == 0 {
                hex_digit(bytes[i / 2] as int / 16)
            } else {
                hex_digit(bytes[i / 2] as int % 16)
            },
    )
}

/// The hash under which a file of this content is known: its SHA3-256
/// digest in hexadecimal.
pub open spec fn content_hash(content: Seq<char>) -> Seq<char> {
    hex_lower(sha3_256(vstd::utf8::encode_utf8(content)))
}

/// The address of the script `filename` whose hash is `hash`.
pub open spec fn asset_path(filename: Seq<char>, hash: Seq<char>) -> Seq<char> {
    "/assets/js/"@ + filename + "-"@ + hash.take(PATH_HASH_LEN as int) + ".js"@
}

/// Calls `Digest::digest` of `sha3::Sha3_256`.
///
/// Trusted: the 32 bytes returned are the SHA3-256 digest of `bytes`.
#[verifier::external_body]
fn sha3_256_digest(bytes: &[u8]) -> (digest: Vec<u8>)
    ensures
        digest@ == sha3_256(bytes@),
        digest@.len() == DIGEST_LEN,
{
    <sha3::Sha3_256 as sha3::Digest>::digest(bytes).to_vec()
}

/// Calls `base16ct::lower::encode_string`.
///
/// Trusted: the text holds two lower-case hexadecimal digits for each
/// byte, in order, the high half first. The call panics where the text
/// is more than a buffer holds, which `requires` rules out.
#[verifier::external_body]
fn hex_encode(bytes: &[u8]) -> (text: String)
    requires
        2 * bytes@.len() <= isize::MAX,
    ensures
        text@ == hex_lower(bytes@),
{
    base16ct::lower::encode_string(bytes)
}

/// A script file together with the hash of its content.
///
/// The hash is made when the file is taken in, and a request has to name
/// it to get the content.
pub struct JsFile {
    hash: String,
    content: String,
}

/// What a script file holds.
pub struct JsFileData {
    pub hash: Seq<char>,
    pub content: Seq<char>,
}

impl View for JsFile {
    type V = JsFileData;

    closed spec fn view(&self) -> JsFileData {
        JsFileData { hash: self.hash@, content: self.content@ }
    }
}

impl Clone for JsFile {
    fn clone(&self) -> (copy: Self)
        ensures
            copy@ == self@,
    {
        proof {
            use_type_invariant(self);
        }
        JsFile { hash: self.hash.clone(), content: self.content.clone() }
    }
}

impl JsFile {
    #[verifier::type_invariant]
    spec fn well_formed(self) -> bool {
        &&& self.hash@ == content_hash(self.content@)
        &&& self.hash@.len() == 2 * DIGEST_LEN
    }

    /// Whether a file may be read, given whether it lies within the
    /// directory of script assets: a file outside of it is not found.
    pub fn check_location(within_directory: bool) -> (checked: Result<(), GumboError>)
        ensures
            checked is Ok <==> within_directory,
            checked matches Err(e) ==> e.kind() == IoErrorKind::NotFound && e.message()
                == "File is not within the specified directory"@,
    {
        if !within_directory {
            return Err(
                GumboError::io(IoErrorKind::NotFound, "File is not within the specified directory"),
            );
        }
        Ok(())
    }

    /// Takes in the content of a script file and hashes it.
    pub fn new(content: String) -> (file: JsFile)
        ensures
            file@.content == content@,
            file@.hash == content_hash(content@),
            file@.hash.len() == 2 * DIGEST_LEN,
    {
        let digest = sha3_256_digest(content.as_str().as_bytes());
        let hash = hex_encode(digest.as_slice());
        JsFile { hash, content }
    }

    /// The content of the file, as it was taken in.
    pub fn contents(&self) -> (content: &str)
        ensures
            content@ == self@.content,
    {
        self.content.as_str()
    }

    /// The hash of the content: 64 hexadecimal digits.
    pub fn hash(&self) -> (hash: &str)
        ensures
            hash@ == self@.hash,
            hash@ == content_hash(self@.content),
            hash@.len() == 2 * DIGEST_LEN,
    {
        proof {
            use_type_invariant(self);
        }
        self.hash.as_str()
    }

    /// Lets the file through if `hash` is how its own hash begins. An
    /// empty `hash` names no file.
    pub fn verify_hash(&self, hash: &str) -> (checked: Result<&Self, GumboError>)
        ensures
            checked is Ok <==> hash@.len() > 0 && hash@.is_prefix_of(content_hash(self@.content)),
            checked matches Ok(file) ==> file == self,
            checked matches Err(e) ==> e.kind() == IoErrorKind::Other && e.message()
                == "File Hash Invalid"@,
    {
        proof {
            use_type_invariant(self);
        }
        if !starts_with(self.hash.as_str(), hash) || hash.is_empty() {
            return Err(GumboError::io(IoErrorKind::Other, "File Hash Invalid"));
        }
        Ok(self)
    }
}

/// Returns the URL of a script file. The URL holds the start of the
/// file's hash, so when the file changes, a new version is served.
pub fn js_path(filename: &str, file: &JsFile) -> (path: String)
    ensures
        path@ == asset_path(filename@, content_hash(file@.content)),
{
    hashed_path(filename, file.hash())
}

/// The URL of the script `filename` whose hash is `hash`.
pub fn hashed_path(filename: &str, hash: &str) -> (path: String)
    requires
        hash@.len() >= PATH_HASH_LEN,
    ensures
        path@ == asset_path(filename@, hash@),
{
    let head = hash.substring_char(0, PATH_HASH_LEN);
    assert(head@ =~= hash@.take(PATH_HASH_LEN as int));
    let mut path = String::from_str("/assets/js/");
    path.append(filename);
    path.append("-");
    path.append(head);
    path.append(".js");
    path
}

} // verus!
