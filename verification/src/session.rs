//! Sessions that live in a cookie.
//!
//! A session names a user, the second at which it ends, and the token
//! that requests which change something must repeat. Its token is
//! `base64(nonce || AES-256-GCM(key, nonce, archive of the fields))`.
//! Nothing is stored on the server: whoever holds the key can read a
//! token, and nobody else can make one.
//!
//! The key, the clock and the request are the caller's: every function
//! takes what it needs as arguments.
//!
//! A token's way through a request: the cookie is there or not
//! ([`load_session`]); its text is base64 or not ([`validate`]); its
//! bytes hold more than a nonce or not ([`unframe`]); the cipher opens
//! them or not, and the plaintext is a session or not
//! ([`Session::from_encrypted`]); the session still lasts or not
//! ([`check_expiry`]); and the request may read, may change something,
//! or is turned away ([`authorize`]). Each "not" ends the way with its
//! own [`AuthError`].

use vstd::prelude::*;
use vstd::std_specs::cmp::PartialEqSpecImpl;

pub mod cipher;
pub mod codec;
pub mod encoding;
pub mod random;

use crate::session::cipher::{
    aes_gcm_decrypt, aes_gcm_encrypt, aes_gcm_opened, aes_gcm_sealed, random_nonce, KEY_LEN,
    NONCE_LEN, TAG_LEN,
};
use crate::session::codec::{
    archive_fits, rkyv_archived, rkyv_from_bytes, rkyv_restored, rkyv_to_bytes, texts_fit,
    MAX_TEXTS_LEN, MAX_TEXT_LEN, MIN_ARCHIVE_LEN,
};
use crate::session::encoding::{
    base64_decode, base64_decoded, base64_encode, base64_encoded, base64_fits, base64_len,
};
use crate::session::random::{is_alphanumeric, random_alphanumeric};
use crate::text::{same_text, text_of};

verus! {

/// Seconds that a session lasts: 24 hours.
pub const SESSION_TTL: i64 = 86_400;

/// Characters in a request-forgery token.
pub const CSRF_TOKEN_LEN: usize = 32;

/// The cookie that carries the token.
pub const SESSION_COOKIE: &'static str = "_session";

/// The header in which a request that changes something repeats the
/// session's request-forgery token.
pub const CSRF_HEADER: &'static str = "X-CSRF-Token";

/// Why no key could be had from the configuration. Each of these is a
/// fault of the deployment, to be found when the process starts.
#[derive(Debug, Clone, Copy, PartialEq, Eq, Structural)]
pub enum ConfigError {
    /// No secret is configured.
    Missing,
    /// The secret is not base64.
    Malformed,
    /// The secret does not decode to 32 bytes.
    WrongLength,
}

/// Bytes that are no session: cut short, or with parts that do not fit
/// together.
#[derive(Debug, Clone, Copy, PartialEq, Eq, Structural)]
pub struct CodecError;

/// Why a request has no session. To the client all of them are one
/// answer, see [`AuthError::erase`]; they differ for the log.
#[derive(Debug, Clone, Copy, PartialEq, Eq, Structural)]
pub enum AuthError {
    /// The request carries no session cookie.
    Absent,
    /// The cookie is not base64.
    Malformed,
    /// The token is too short to hold a nonce and a ciphertext.
    Undersized,
    /// The cipher rejected the token: it was made under another key, or
    /// changed since.
    Tampered,
    /// The token is authentic but its plaintext is no session.
    Undecodable,
    /// The session is authentic and has ended.
    Expired,
    /// The session is valid, but the request changes something and does
    /// not carry the session's request-forgery token.
    CsrfMismatch,
}

/// The one answer that a client gets, whatever went wrong.
#[derive(Debug, Clone, Copy, PartialEq, Eq, Structural)]
pub struct Unauthorized;

/// What a request with a valid session may do.
#[derive(Debug, Clone, Copy, PartialEq, Eq, Structural)]
pub enum Access {
    /// The request only reads.
    Read,
    /// The request changes something, and proved that it comes from a
    /// page of this site.
    Mutation,
}

/// The 256-bit key under which tokens are sealed.
pub struct AuthKey {
    bytes: Vec<u8>,
}

/// An active user's session. To keep more about the user, store it under
/// the subject elsewhere.
#[derive(Debug)]
pub struct Session {
    // A unique identifier for the user
    sub: String,
    // unix timestamp (sec) when this session will expire
    exp: i64,
    // The expected csrf_token for this session
    csrf_token: String,
}

/// An active user's session that was loaded without the request-forgery
/// check.
pub struct SessionUnsafe(Session);

/// What a session holds.
pub struct SessionData {
    pub sub: Seq<char>,
    pub exp: i64,
    pub csrf_token: Seq<char>,
}

impl View for AuthKey {
    type V = Seq<u8>;

    closed spec fn view(&self) -> Seq<u8> {
        self.bytes@
    }
}

impl View for Session {
    type V = SessionData;

    closed spec fn view(&self) -> SessionData {
        SessionData { sub: self.sub@, exp: self.exp, csrf_token: self.csrf_token@ }
    }
}

impl PartialEq for Session {
    fn eq(&self, other: &Self) -> (same: bool) {
        self.sub == other.sub && self.exp == other.exp && self.csrf_token == other.csrf_token
    }
}

impl PartialEqSpecImpl for Session {
    open spec fn obeys_eq_spec() -> bool {
        true
    }

    open spec fn eq_spec(&self, other: &Self) -> bool {
        self@ == other@
    }
}

impl View for SessionUnsafe {
    type V = SessionData;

    closed spec fn view(&self) -> SessionData {
        self.0@
    }
}

/// A token as `build` makes them: 32 characters, each a letter or a digit
/// of ASCII.
pub open spec fn is_csrf_token(token: Seq<char>) -> bool {
    &&& token.len() == CSRF_TOKEN_LEN
    &&& forall|i: int| 0 <= i < token.len() ==> is_alphanumeric(#[trigger] token[i])
}

/// A session as it should be when it is made at `created`: it names
/// someone, ends later than it began, and carries a token of the right
/// form.
pub open spec fn well_formed_at(data: SessionData, created: i64) -> bool {
    &&& data.sub.len() > 0
    &&& data.exp > created
    &&& is_csrf_token(data.csrf_token)
}

/// The key that a configured secret stands for.
pub open spec fn key_of(secret: Option<Seq<char>>) -> Result<Seq<u8>, ConfigError> {
    match secret {
        None => Err(ConfigError::Missing),
        Some(text) => match base64_decoded(text) {
            None => Err(ConfigError::Malformed),
            Some(bytes) => if bytes.len() == KEY_LEN {
                Ok(bytes)
            } else {
                Err(ConfigError::WrongLength)
            },
        },
    }
}

/// The bytes that stand for a session, where it has any. A session
/// whose texts are longer than an archive records has none.
pub open spec fn encoded(data: SessionData) -> Option<Seq<u8>> {
    if texts_fit(
        vstd::utf8::encode_utf8(data.sub).len(),
        vstd::utf8::encode_utf8(data.csrf_token).len(),
    ) {
        rkyv_archived(data.sub, data.exp, data.csrf_token)
    } else {
        None
    }
}

/// The session that bytes stand for, where they stand for one. More
/// bytes than an archive can have stand for none.
pub open spec fn decoded(bytes: Seq<u8>) -> Option<SessionData> {
    if archive_fits(bytes.len()) {
        match rkyv_restored(bytes) {
            Some(fields) => Some(
                SessionData { sub: fields.0, exp: fields.1, csrf_token: fields.2 },
            ),
            None => None,
        }
    } else {
        None
    }
}

/// Whether the token for a plaintext of `len` bytes fits in memory: the
/// nonce, the plaintext and the tag, in base64.
pub open spec fn token_fits(len: nat) -> bool {
    base64_fits((NONCE_LEN + len + TAG_LEN) as nat)
}

/// The raw bytes of the token for a session under a key and a nonce,
/// where there is one: the nonce, then the session's byte form as the
/// cipher sealed it. The session must have a byte form that the cipher
/// takes, and the token must fit in memory.
pub open spec fn token_bytes(key: Seq<u8>, nonce: Seq<u8>, data: SessionData) -> Option<Seq<u8>> {
    match encoded(data) {
        None => None,
        Some(plaintext) => if token_fits(plaintext.len()) {
            match aes_gcm_sealed(key, nonce, plaintext) {
                None => None,
                Some(sealed) => Some(nonce + sealed),
            }
        } else {
            None
        },
    }
}

/// The token for a session under a key and a nonce, where there is one:
/// its raw bytes in base64.
pub open spec fn sealed_token(key: Seq<u8>, nonce: Seq<u8>, data: SessionData) -> Option<
    Seq<char>,
> {
    match token_bytes(key, nonce, data) {
        None => None,
        Some(bytes) => Some(base64_encoded(bytes)),
    }
}

/// Whether `token` is on the wire what a session's token under `nonce`
/// has to be: padded base64 that decodes to the nonce in the first 12
/// bytes, then the sealed byte form, which is 16 bytes longer than the
/// byte form itself.
pub open spec fn carries(
    token: Seq<char>,
    key: Seq<u8>,
    nonce: Seq<u8>,
    data: SessionData,
) -> bool {
    &&& token_bytes(key, nonce, data) matches Some(bytes)
    &&& encoded(data) matches Some(plaintext)
    &&& base64_decoded(token) == Some(bytes)
    &&& bytes.len() == NONCE_LEN + plaintext.len() + TAG_LEN
    &&& bytes.take(NONCE_LEN as int) == nonce
    &&& aes_gcm_sealed(key, nonce, plaintext) == Some(bytes.skip(NONCE_LEN as int))
    &&& token.len() == base64_len(bytes.len())
    &&& token.len() % 4 == 0
}

/// What the raw bytes of a token give under a key. Bytes that cannot hold
/// a nonce and something after it are turned away before the cipher is
/// asked.
pub open spec fn opened(key: Seq<u8>, bytes: Seq<u8>) -> Result<SessionData, AuthError> {
    if bytes.len() <= NONCE_LEN {
        Err(AuthError::Undersized)
    } else {
        match aes_gcm_opened(key, bytes.take(NONCE_LEN as int), bytes.skip(NONCE_LEN as int)) {
            None => Err(AuthError::Tampered),
            Some(plaintext) => match decoded(plaintext) {
                None => Err(AuthError::Undecodable),
                Some(data) => Ok(data),
            },
        }
    }
}

/// A session as it stands at `now`: it lasts through the second `exp`.
pub open spec fn unexpired(data: SessionData, now: i64) -> Result<SessionData, AuthError> {
    if data.exp < now {
        Err(AuthError::Expired)
    } else {
        Ok(data)
    }
}

/// What a token gives under a key at `now`.
pub open spec fn validated(key: Seq<u8>, token: Seq<char>, now: i64) -> Result<
    SessionData,
    AuthError,
> {
    match base64_decoded(token) {
        None => Err(AuthError::Malformed),
        Some(bytes) => match opened(key, bytes) {
            Err(e) => Err(e),
            Ok(data) => unexpired(data, now),
        },
    }
}

/// The one method that only reads.
pub open spec fn read_only_method() -> Seq<char> {
    seq!['G', 'E', 'T']
}

/// What a request may do under a session whose request-forgery token is
/// `csrf_token`: read without further proof, change something only with
/// the very same token in its header.
pub open spec fn authorized(csrf_token: Seq<char>, method: Seq<char>, header: Option<Seq<char>>)
    -> Result<Access, AuthError> {
    if method == read_only_method() {
        Ok(Access::Read)
    } else if header == Some(csrf_token) {
        Ok(Access::Mutation)
    } else {
        Err(AuthError::CsrfMismatch)
    }
}

/// The raw bytes of the token in a request's cookie, as far as they can
/// be told without a key: the cookie must be there, be base64 and hold
/// more than a nonce.
pub open spec fn cookie_token(cookie: Option<Seq<char>>) -> Result<Seq<u8>, AuthError> {
    match cookie {
        None => Err(AuthError::Absent),
        Some(token) => match base64_decoded(token) {
            None => Err(AuthError::Malformed),
            Some(bytes) => if bytes.len() <= NONCE_LEN {
                Err(AuthError::Undersized)
            } else {
                Ok(bytes)
            },
        },
    }
}

/// What a request's cookie gives at `now`, the request-forgery check left
/// out.
pub open spec fn loaded_unsafe(key: Seq<u8>, cookie: Option<Seq<char>>, now: i64) -> Result<
    SessionData,
    AuthError,
> {
    match cookie {
        None => Err(AuthError::Absent),
        Some(token) => validated(key, token, now),
    }
}

/// What a request gives at `now`: the session of its cookie, if that is
/// valid and the request may do what its method says.
pub open spec fn loaded(
    key: Seq<u8>,
    cookie: Option<Seq<char>>,
    now: i64,
    method: Seq<char>,
    header: Option<Seq<char>>,
) -> Result<SessionData, AuthError> {
    match loaded_unsafe(key, cookie, now) {
        Err(e) => Err(e),
        Ok(data) => match authorized(data.csrf_token, method, header) {
            Err(e) => Err(e),
            Ok(_) => Ok(data),
        },
    }
}

/// The text of a token that may be absent.
pub open spec fn token_text(token: Option<String>) -> Option<Seq<char>> {
    match token {
        Some(t) => Some(t@),
        None => None,
    }
}

/// What `build` makes for a user who logged in at `now`, given the
/// request-forgery token drawn for it.
pub open spec fn fresh_session(sub: Seq<char>, now: i64, csrf_token: Seq<char>) -> SessionData {
    SessionData { sub, exp: (now + SESSION_TTL) as i64, csrf_token }
}

/// Whether `token` is what sealing `data` under `key` and `nonce` gives:
/// a token that is on the wire what it has to be, or none.
pub open spec fn sealed_with(
    key: Seq<u8>,
    nonce: Seq<u8>,
    data: SessionData,
    token: Option<Seq<char>>,
) -> bool {
    &&& nonce.len() == NONCE_LEN
    &&& sealed_token(key, nonce, data) == token
    &&& token matches Some(t) ==> carries(t, key, nonce, data)
}

/// Whether `token` is what sealing `data` under `key` gives with some
/// nonce of the right length.
pub open spec fn sealed_from(key: Seq<u8>, data: SessionData, token: Option<Seq<char>>) -> bool {
    exists|nonce: Seq<u8>| #[trigger] sealed_with(key, nonce, data, token)
}

/// Whether `token` reads back as `data` under `key`: as the session
/// itself through the second at which it ends, and as expired after it.
pub open spec fn reads_back(key: Seq<u8>, token: Seq<char>, data: SessionData) -> bool {
    forall|now: i64| #[trigger] validated(key, token, now) == unexpired(data, now)
}

/// Whether `token` is what issuing `data` under `key` may give: the
/// sealed form under some nonce, which reads back as `data` where there
/// is one.
pub open spec fn issued_as(key: Seq<u8>, data: SessionData, token: Option<Seq<char>>) -> bool {
    &&& sealed_from(key, data, token)
    &&& token matches Some(t) ==> reads_back(key, t, data)
}

/// The outcome of a function that gives a session, by what the session
/// holds.
pub open spec fn outcome_of(outcome: Result<Session, AuthError>) -> Result<SessionData, AuthError> {
    match outcome {
        Ok(session) => Ok(session@),
        Err(e) => Err(e),
    }
}

impl AuthError {
    /// What the client is told: the same for every cause, so that the
    /// answers tell an attacker nothing.
    pub fn erase(self) -> (answer: Unauthorized)
        ensures
            answer == Unauthorized,
    {
        Unauthorized
    }
}

impl AuthKey {
    #[verifier::type_invariant]
    spec fn well_formed(self) -> bool {
        self.bytes@.len() == KEY_LEN
    }

    /// A key of these bytes, where there are 32 of them.
    pub fn from_bytes(bytes: Vec<u8>) -> (key: Result<AuthKey, ConfigError>)
        ensures
            key is Ok <==> bytes@.len() == KEY_LEN,
            key matches Ok(k) ==> k@ == bytes@,
            key matches Err(e) ==> e == ConfigError::WrongLength,
    {
        if bytes.len() == KEY_LEN {
            Ok(AuthKey { bytes })
        } else {
            Err(ConfigError::WrongLength)
        }
    }
}

/// The key that the configured secret stands for: base64 of 32 bytes.
pub fn auth_key(secret: Option<&str>) -> (key: Result<AuthKey, ConfigError>)
    ensures
        match key {
            Ok(k) => key_of(text_of(secret)) == Ok::<Seq<u8>, ConfigError>(k@),
            Err(e) => key_of(text_of(secret)) == Err::<Seq<u8>, ConfigError>(e),
        },
{
    match secret {
        None => Err(ConfigError::Missing),
        Some(text) => match base64_decode(text) {
            Err(_) => Err(ConfigError::Malformed),
            Ok(bytes) => AuthKey::from_bytes(bytes),
        },
    }
}

/// Checks that the configured secret gives a key. To be called when the
/// process starts, so that a bad deployment stops there and not at the
/// first request.
pub fn verify_auth_key(secret: Option<&str>) -> (checked: Result<(), ConfigError>)
    ensures
        match checked {
            Ok(_) => key_of(text_of(secret)) is Ok,
            Err(e) => key_of(text_of(secret)) == Err::<Seq<u8>, ConfigError>(e),
        },
{
    match auth_key(secret) {
        Ok(_) => Ok(()),
        Err(e) => Err(e),
    }
}

/// Whether the token for a plaintext of `len` bytes fits in memory.
fn plaintext_fits(len: usize) -> (fits: bool)
    ensures
        fits == token_fits(len as nat),
        fits ==> len + TAG_LEN <= isize::MAX,
{
    let framing: usize = NONCE_LEN + TAG_LEN;
    if len > usize::MAX - framing {
        return false;
    }
    (len + framing) / 3 < (isize::MAX as usize) / 4
}

/// The bytes of a token: the nonce, then what the cipher made.
pub fn frame(nonce: &[u8; 12], sealed: &[u8]) -> (bytes: Vec<u8>)
    ensures
        bytes@ == nonce@ + sealed@,
{
    let mut bytes: Vec<u8> = Vec::new();
    bytes.extend_from_slice(nonce.as_slice());
    bytes.extend_from_slice(sealed);
    assert(bytes@ =~= nonce@ + sealed@);
    bytes
}

/// Parts a token's bytes into the nonce and what the cipher made. Bytes
/// that hold no more than a nonce are no token.
pub fn unframe(bytes: &[u8]) -> (parts: Result<(&[u8], &[u8]), AuthError>)
    ensures
        parts is Ok <==> bytes@.len() > NONCE_LEN,
        parts matches Ok(p) ==> p.0@ == bytes@.take(NONCE_LEN as int) && p.1@ == bytes@.skip(
            NONCE_LEN as int,
        ),
        parts matches Err(e) ==> e == AuthError::Undersized,
{
    if bytes.len() <= NONCE_LEN {
        return Err(AuthError::Undersized);
    }
    let nonce = vstd::slice::slice_subrange(bytes, 0, NONCE_LEN);
    let sealed = vstd::slice::slice_subrange(bytes, NONCE_LEN, bytes.len());
    assert(nonce@ =~= bytes@.take(NONCE_LEN as int));
    assert(sealed@ =~= bytes@.skip(NONCE_LEN as int));
    Ok((nonce, sealed))
}

/// Lets a session through while it lasts: through the second `exp`, and
/// no longer.
pub fn check_expiry(session: Session, now: i64) -> (outcome: Result<Session, AuthError>)
    ensures
        outcome_of(outcome) == unexpired(session@, now),
        session@.exp < now ==> outcome == Err::<Session, AuthError>(AuthError::Expired),
        session@.exp >= now ==> outcome == Ok::<Session, AuthError>(session),
{
    if session.exp < now {
        Err(AuthError::Expired)
    } else {
        Ok(session)
    }
}

/// What a request may do under a valid session.
///
/// A `GET` reads, and needs no proof. Any other method changes something,
/// and is let through only if the request's header repeats the session's
/// request-forgery token, character for character.
pub fn authorize(session: &Session, method: &str, csrf_header: Option<&str>) -> (access: Result<
    Access,
    AuthError,
>)
    ensures
        access == authorized(session@.csrf_token, method@, text_of(csrf_header)),
        method@ == read_only_method() ==> access == Ok::<Access, AuthError>(Access::Read),
        method@ != read_only_method() && text_of(csrf_header) == Some(session@.csrf_token)
            ==> access == Ok::<Access, AuthError>(Access::Mutation),
        method@ != read_only_method() && text_of(csrf_header) != Some(session@.csrf_token)
            ==> access == Err::<Access, AuthError>(AuthError::CsrfMismatch),
{
    proof {
        reveal_strlit("GET");
    }
    assert("GET"@ =~= read_only_method());
    if same_text(method, "GET") {
        return Ok(Access::Read);
    }
    match csrf_header {
        None => Err(AuthError::CsrfMismatch),
        Some(token) => {
            if same_text(token, session.csrf_token.as_str()) {
                Ok(Access::Mutation)
            } else {
                Err(AuthError::CsrfMismatch)
            }
        },
    }
}

impl SessionUnsafe {
    /// The session, as it was loaded.
    pub fn into_inner(self) -> (session: Session)
        ensures
            session@ == self@,
    {
        self.0
    }
}

impl Session {
    /// The unique identifier of the user.
    pub fn sub(&self) -> (sub: &str)
        ensures
            sub@ == self@.sub,
    {
        self.sub.as_str()
    }

    /// The second, since the epoch, through which the session lasts.
    pub fn exp(&self) -> (exp: i64)
        ensures
            exp == self@.exp,
    {
        self.exp
    }

    /// The token that requests which change something must repeat. Pages
    /// of the site carry it, in a `meta` element named `csrf-token`.
    pub fn csrf_token(&self) -> (token: &str)
        ensures
            token@ == self@.csrf_token,
    {
        self.csrf_token.as_str()
    }

    /// A session for a user who logged in at `now`, with a request-forgery
    /// token made for it at random.
    pub fn build(sub: &str, now: i64) -> (session: Session)
        requires
            now + SESSION_TTL <= i64::MAX,
        ensures
            session@.sub == sub@,
            session@.exp == now + SESSION_TTL,
            is_csrf_token(session@.csrf_token),
            sub@.len() > 0 ==> well_formed_at(session@, now),
    {
        let csrf_token = random_alphanumeric(CSRF_TOKEN_LEN);
        Session::build_with(sub, now, csrf_token)
    }

    /// A session for a user who logged in at `now`, with the given
    /// request-forgery token.
    pub fn build_with(sub: &str, now: i64, csrf_token: String) -> (session: Session)
        requires
            now + SESSION_TTL <= i64::MAX,
        ensures
            session@ == fresh_session(sub@, now, csrf_token@),
    {
        Session { sub: sub.to_owned(), exp: now + SESSION_TTL, csrf_token }
    }

    /// The bytes that stand for this session, if it has any. A session
    /// whose subject or token is longer than an archive records has none.
    pub fn encode(&self) -> (bytes: Option<Vec<u8>>)
        ensures
            match bytes {
                Some(b) => encoded(self@) == Some(b@) && decoded(b@) == Some(self@),
                None => encoded(self@) is None,
            },
            !texts_fit(
                vstd::utf8::encode_utf8(self@.sub).len(),
                vstd::utf8::encode_utf8(self@.csrf_token).len(),
            ) ==> bytes is None,
    {
        let sub_len: usize = self.sub.as_str().as_bytes().len();
        let csrf_len: usize = self.csrf_token.as_str().as_bytes().len();
        if sub_len > MAX_TEXT_LEN || csrf_len > MAX_TEXT_LEN {
            return None;
        }
        if sub_len + csrf_len > MAX_TEXTS_LEN {
            return None;
        }
        match rkyv_to_bytes(self.sub.as_str(), self.exp, self.csrf_token.as_str()) {
            Ok(bytes) => Some(bytes),
            Err(_) => None,
        }
    }

    /// The session that bytes stand for. Bytes that are cut short, or
    /// whose parts do not fit together, stand for none.
    pub fn decode(bytes: &[u8]) -> (outcome: Result<Session, CodecError>)
        ensures
            match outcome {
                Ok(session) => decoded(bytes@) == Some(session@),
                Err(_) => decoded(bytes@) is None,
            },
            bytes@.len() < MIN_ARCHIVE_LEN ==> outcome is Err,
    {
        if bytes.len() > (isize::MAX as usize) - 15 {
            return Err(CodecError);
        }
        match rkyv_from_bytes(bytes) {
            Ok(fields) => {
                let (sub, exp, csrf_token) = fields;
                Ok(Session { sub, exp, csrf_token })
            },
            Err(_) => Err(CodecError),
        }
    }

    /// The token for this session under `key`, sealed with a nonce that
    /// is drawn at random for this call.
    ///
    /// There is none where the session has no byte form, or one too large
    /// for memory or for the cipher. A token that was made is padded
    /// base64 of the nonce and the sealed byte form, and is read back by
    /// [`validate`] under the same key, through the second `exp`.
    pub fn as_encrypted(&self, key: &AuthKey) -> (token: Option<String>)
        ensures
            issued_as(key@, self@, token_text(token)),
            token matches Some(t) ==> exists|nonce: Seq<u8>|
                nonce.len() == NONCE_LEN && #[trigger] carries(t@, key@, nonce, self@),
    {
        let nonce = random_nonce();
        let token = self.as_encrypted_with(key, &nonce);
        assert(sealed_with(key@, nonce@, self@, token_text(token)));
        token
    }

    /// The token for this session under `key` and `nonce`: padded base64
    /// of the nonce and, behind it, the session's byte form as the cipher
    /// sealed it.
    ///
    /// A nonce must never seal two sessions under one key: draw it at
    /// random, as [`Session::as_encrypted`] does.
    pub fn as_encrypted_with(&self, key: &AuthKey, nonce: &[u8; 12]) -> (token: Option<String>)
        ensures
            token_text(token) == sealed_token(key@, nonce@, self@),
            token matches Some(t) ==> base64_decoded(t@) == token_bytes(key@, nonce@, self@),
            token matches Some(t) ==> carries(t@, key@, nonce@, self@),
            token matches Some(t) ==> reads_back(key@, t@, self@),
    {
        proof {
            use_type_invariant(key);
        }
        let plaintext = match self.encode() {
            Some(plaintext) => plaintext,
            None => {
                return None;
            },
        };
        if !plaintext_fits(plaintext.len()) {
            return None;
        }
        let sealed = match aes_gcm_encrypt(
            key.bytes.as_slice(),
            nonce.as_slice(),
            plaintext.as_slice(),
        ) {
            Ok(sealed) => sealed,
            Err(_) => {
                return None;
            },
        };
        let bytes = frame(nonce, sealed.as_slice());
        let token = base64_encode(bytes.as_slice());
        proof {
            lemma_round_trip(key@, nonce@, self@, plaintext@, sealed@, token@);
            assert(bytes@.take(NONCE_LEN as int) =~= nonce@);
            assert(bytes@.skip(NONCE_LEN as int) =~= sealed@);
        }
        Some(token)
    }

    /// The session in the raw bytes of a token, under `key`.
    pub fn from_encrypted(key: &AuthKey, encrypted_bytes: &[u8]) -> (outcome: Result<
        Session,
        AuthError,
    >)
        ensures
            outcome_of(outcome) == opened(key@, encrypted_bytes@),
            encrypted_bytes@.len() <= NONCE_LEN ==> outcome_of(outcome) == Err::<
                SessionData,
                AuthError,
            >(AuthError::Undersized),
            outcome is Ok ==> encrypted_bytes@.len() >= NONCE_LEN + MIN_ARCHIVE_LEN + TAG_LEN,
    {
        proof {
            use_type_invariant(key);
        }
        let (nonce, sealed) = match unframe(encrypted_bytes) {
            Ok(parts) => parts,
            Err(e) => {
                return Err(e);
            },
        };
        let plaintext = match aes_gcm_decrypt(key.bytes.as_slice(), nonce, sealed) {
            Ok(plaintext) => plaintext,
            Err(_) => {
                return Err(AuthError::Tampered);
            },
        };
        match Session::decode(plaintext.as_slice()) {
            Ok(session) => Ok(session),
            Err(CodecError) => Err(AuthError::Undecodable),
        }
    }
}

/// A token that was sealed from a session reads back as that session,
/// under the same key, through the second at which the session ends, and
/// as expired after it.
pub proof fn lemma_round_trip(
    key: Seq<u8>,
    nonce: Seq<u8>,
    data: SessionData,
    plaintext: Seq<u8>,
    sealed: Seq<u8>,
    token: Seq<char>,
)
    requires
        nonce.len() == NONCE_LEN,
        sealed.len() > 0,
        decoded(plaintext) == Some(data),
        aes_gcm_opened(key, nonce, sealed) == Some(plaintext),
        base64_decoded(token) == Some(nonce + sealed),
    ensures
        reads_back(key, token, data),
{
    let bytes = nonce + sealed;
    assert(bytes.take(NONCE_LEN as int) =~= nonce);
    assert(bytes.skip(NONCE_LEN as int) =~= sealed);
    assert(opened(key, bytes) == Ok::<SessionData, AuthError>(data));
}

/// A token for a user who logged in at `now`: a fresh session, sealed
/// under `key`.
pub fn issue(key: &AuthKey, sub: &str, now: i64) -> (token: Option<String>)
    requires
        now + SESSION_TTL <= i64::MAX,
    ensures
        exists|csrf_token: Seq<char>|
            is_csrf_token(csrf_token) && issued_as(
                key@,
                #[trigger] fresh_session(sub@, now, csrf_token),
                token_text(token),
            ),
{
    let session = Session::build(sub, now);
    let token = session.as_encrypted(key);
    assert(session@ == fresh_session(sub@, now, session@.csrf_token));
    token
}

/// The raw bytes of the token in a request's cookie, or why the request
/// has no session whatever the key: no cookie, a cookie that is not
/// base64, or one that holds no more than a nonce.
///
/// No key is needed here, so a request without a token can be answered
/// before the key is looked up.
pub fn cookie_bytes(cookie: Option<&str>) -> (outcome: Result<Vec<u8>, AuthError>)
    ensures
        match outcome {
            Ok(bytes) => cookie_token(text_of(cookie)) == Ok::<Seq<u8>, AuthError>(bytes@),
            Err(e) => cookie_token(text_of(cookie)) == Err::<Seq<u8>, AuthError>(e),
        },
        outcome matches Err(e) ==> forall|key: Seq<u8>, now: i64| #[trigger]
            loaded_unsafe(key, text_of(cookie), now) == Err::<SessionData, AuthError>(e),
{
    let token = match cookie {
        Some(token) => token,
        None => {
            return Err(AuthError::Absent);
        },
    };
    let bytes = match base64_decode(token) {
        Ok(bytes) => bytes,
        Err(_) => {
            return Err(AuthError::Malformed);
        },
    };
    if bytes.len() <= NONCE_LEN {
        return Err(AuthError::Undersized);
    }
    Ok(bytes)
}

/// Tokens that carry different nonces differ, whatever else they hold:
/// the nonce is read off a token's first 12 bytes.
pub proof fn law_nonces_tell_tokens_apart(
    first: Seq<char>,
    second: Seq<char>,
    key: Seq<u8>,
    first_nonce: Seq<u8>,
    second_nonce: Seq<u8>,
    first_data: SessionData,
    second_data: SessionData,
)
    requires
        carries(first, key, first_nonce, first_data),
        carries(second, key, second_nonce, second_data),
        first_nonce != second_nonce,
    ensures
        first != second,
{
}

/// The session in a token, under `key`, as it stands at `now`.
///
/// The token is turned away, in this order: as malformed where it is not
/// base64; as undersized where it holds no more than a nonce, before the
/// cipher is asked; as tampered where the cipher rejects it; as
/// undecodable where its plaintext is no session; as expired where the
/// session ended before `now`.
pub fn validate(key: &AuthKey, token: &str, now: i64) -> (outcome: Result<Session, AuthError>)
    ensures
        outcome_of(outcome) == validated(key@, token@, now),
        outcome matches Ok(session) ==> session@.exp >= now,
        base64_decoded(token@) matches Some(bytes) && bytes.len() <= NONCE_LEN ==> outcome_of(
            outcome,
        ) == Err::<SessionData, AuthError>(AuthError::Undersized),
        base64_decoded(token@) matches Some(bytes) && opened(key@, bytes) matches Ok(data)
            && data.exp < now ==> outcome_of(outcome) == Err::<SessionData, AuthError>(
            AuthError::Expired,
        ),
        outcome is Ok ==> (base64_decoded(token@) matches Some(bytes) && aes_gcm_opened(
            key@,
            bytes.take(NONCE_LEN as int),
            bytes.skip(NONCE_LEN as int),
        ) is Some),
{
    let bytes = match base64_decode(token) {
        Ok(bytes) => bytes,
        Err(_) => {
            return Err(AuthError::Malformed);
        },
    };
    proof {
        if bytes@.len() <= NONCE_LEN {
            law_undersized_is_rejected(key@, token@, bytes@, now);
        }
        if let Ok(data) = opened(key@, bytes@) {
            if data.exp < now {
                law_expired_is_rejected(key@, token@, bytes@, data, now);
            }
        }
        if validated(key@, token@, now) is Ok {
            law_valid_means_authentic(key@, token@, now);
        }
    }
    match Session::from_encrypted(key, bytes.as_slice()) {
        Ok(session) => check_expiry(session, now),
        Err(e) => Err(e),
    }
}

/// Minimum length: a token whose bytes hold no more than a nonce is
/// turned away as undersized, whatever the key and the time. The cipher
/// has no say in it.
pub proof fn law_undersized_is_rejected(key: Seq<u8>, token: Seq<char>, bytes: Seq<u8>, now: i64)
    requires
        base64_decoded(token) == Some(bytes),
        bytes.len() <= NONCE_LEN,
    ensures
        opened(key, bytes) == Err::<SessionData, AuthError>(AuthError::Undersized),
        validated(key, token, now) == Err::<SessionData, AuthError>(AuthError::Undersized),
{
}

/// Expiry: a token that opens as a session which ended before `now` is
/// turned away as expired, though it is authentic.
pub proof fn law_expired_is_rejected(
    key: Seq<u8>,
    token: Seq<char>,
    bytes: Seq<u8>,
    data: SessionData,
    now: i64,
)
    requires
        base64_decoded(token) == Some(bytes),
        opened(key, bytes) == Ok::<SessionData, AuthError>(data),
        data.exp < now,
    ensures
        validated(key, token, now) == Err::<SessionData, AuthError>(AuthError::Expired),
{
}

/// No session without the cipher's consent: whatever reads as a session
/// was opened by the cipher under the key, with the token's first twelve
/// bytes as the nonce.
pub proof fn law_valid_means_authentic(key: Seq<u8>, token: Seq<char>, now: i64)
    requires
        validated(key, token, now) is Ok,
    ensures
        base64_decoded(token) matches Some(bytes) && bytes.len() > NONCE_LEN && aes_gcm_opened(
            key,
            bytes.take(NONCE_LEN as int),
            bytes.skip(NONCE_LEN as int),
        ) is Some,
{
}

/// Nothing of a token escapes the cipher: two tokens that differ in any
/// byte hand the cipher another nonce or another sealed text. Whether
/// the cipher then rejects the changed one is the cipher's to answer.
pub proof fn law_framing_loses_nothing(a: Seq<u8>, b: Seq<u8>)
    requires
        a.len() > NONCE_LEN,
        b.len() > NONCE_LEN,
        a != b,
    ensures
        a.take(NONCE_LEN as int) != b.take(NONCE_LEN as int) || a.skip(NONCE_LEN as int) != b.skip(
            NONCE_LEN as int,
        ),
{
    assert(a =~= a.take(NONCE_LEN as int) + a.skip(NONCE_LEN as int));
    assert(b =~= b.take(NONCE_LEN as int) + b.skip(NONCE_LEN as int));
}

/// Request-forgery gating: under a valid session, a request that changes
/// something gets the session exactly if its header repeats the session's
/// request-forgery token, and is turned away otherwise, a missing header
/// included.
pub proof fn law_csrf_gating(
    key: Seq<u8>,
    cookie: Option<Seq<char>>,
    now: i64,
    method: Seq<char>,
    header: Option<Seq<char>>,
    data: SessionData,
)
    requires
        loaded_unsafe(key, cookie, now) == Ok::<SessionData, AuthError>(data),
        method != read_only_method(),
    ensures
        header == Some(data.csrf_token) ==> loaded(key, cookie, now, method, header) == Ok::<
            SessionData,
            AuthError,
        >(data),
        header != Some(data.csrf_token) ==> loaded(key, cookie, now, method, header) == Err::<
            SessionData,
            AuthError,
        >(AuthError::CsrfMismatch),
{
}

/// Request-forgery exemption: under a valid session, a request that only
/// reads gets the session, whatever its header holds.
pub proof fn law_csrf_exemption(
    key: Seq<u8>,
    cookie: Option<Seq<char>>,
    now: i64,
    header: Option<Seq<char>>,
    data: SessionData,
)
    requires
        loaded_unsafe(key, cookie, now) == Ok::<SessionData, AuthError>(data),
    ensures
        loaded(key, cookie, now, read_only_method(), header) == Ok::<SessionData, AuthError>(
            data,
        ),
{
}

/// The bypass differs from the checked path in the request-forgery check
/// alone: what the checked path lets through, the bypass gives too, and
/// what the bypass turns away, the checked path turns away for the same
/// reason.
pub proof fn law_bypass_skips_only_csrf(
    key: Seq<u8>,
    cookie: Option<Seq<char>>,
    now: i64,
    method: Seq<char>,
    header: Option<Seq<char>>,
)
    ensures
        loaded(key, cookie, now, method, header) is Ok ==> loaded_unsafe(key, cookie, now)
            == loaded(key, cookie, now, method, header),
        loaded_unsafe(key, cookie, now) is Err ==> loaded(key, cookie, now, method, header)
            == loaded_unsafe(key, cookie, now),
{
}

/// The session of a request: its cookie must hold a valid token, and a
/// request that changes something must repeat the session's
/// request-forgery token in its header.
pub fn load_session(
    key: &AuthKey,
    cookie: Option<&str>,
    now: i64,
    method: &str,
    csrf_header: Option<&str>,
) -> (outcome: Result<Session, AuthError>)
    ensures
        outcome_of(outcome) == loaded(
            key@,
            text_of(cookie),
            now,
            method@,
            text_of(csrf_header),
        ),
        outcome matches Ok(session) ==> session@.exp >= now && (method@ == read_only_method()
            || text_of(csrf_header) == Some(session@.csrf_token)),
{
    let session = match load_session_unsafe(key, cookie, now) {
        Ok(session) => session.into_inner(),
        Err(e) => {
            return Err(e);
        },
    };
    proof {
        if method@ == read_only_method() {
            law_csrf_exemption(key@, text_of(cookie), now, text_of(csrf_header), session@);
        } else {
            law_csrf_gating(key@, text_of(cookie), now, method@, text_of(csrf_header), session@);
        }
    }
    match authorize(&session, method, csrf_header) {
        Ok(_) => Ok(session),
        Err(e) => Err(e),
    }
}

/// The session of a request, without the request-forgery check.
///
/// Whoever calls this for a request that changes something has to keep
/// forged requests out by other means.
pub fn load_session_unsafe(key: &AuthKey, cookie: Option<&str>, now: i64) -> (outcome: Result<
    SessionUnsafe,
    AuthError,
>)
    ensures
        match outcome {
            Ok(session) => loaded_unsafe(key@, text_of(cookie), now) == Ok::<
                SessionData,
                AuthError,
            >(session@),
            Err(e) => loaded_unsafe(key@, text_of(cookie), now) == Err::<SessionData, AuthError>(
                e,
            ),
        },
        outcome matches Ok(session) ==> session@.exp >= now,
{
    let token = match cookie {
        Some(token) => token,
        None => {
            return Err(AuthError::Absent);
        },
    };
    match validate(key, token, now) {
        Ok(session) => Ok(SessionUnsafe(session)),
        Err(e) => Err(e),
    }
}

} // verus!
