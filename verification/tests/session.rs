use gumbo_lib::session::{
    auth_key, authorize, check_expiry, cookie_bytes, frame, issue, load_session,
    load_session_unsafe, unframe,
    validate, verify_auth_key, Access, AuthError, AuthKey, CodecError, ConfigError, Session,
    Unauthorized,
};

// 32 bytes of 0x00, and 32 bytes of 0x01, in base64
const SECRET: &str = "AAAAAAAAAAAAAAAAAAAAAAAAAAAAAAAAAAAAAAAAAAA=";
const OTHER_SECRET: &str = "AQEBAQEBAQEBAQEBAQEBAQEBAQEBAQEBAQEBAQEBAQE=";
const NOW: i64 = 1_700_000_000;
const NONCE: [u8; 12] = [7; 12];
const CSRF: &str = "abcdefghijklmnopqrstuvwxyz012345";

fn key() -> AuthKey {
    auth_key(Some(SECRET)).unwrap()
}

fn sample() -> Session {
    Session::build_with("user-42", NOW, CSRF.to_string())
}

fn to_base64(bytes: &[u8]) -> String {
    base64::Engine::encode(&base64::prelude::BASE64_STANDARD, bytes)
}

fn from_base64(text: &str) -> Vec<u8> {
    base64::Engine::decode(&base64::prelude::BASE64_STANDARD, text).unwrap()
}

fn seal_raw(key_bytes: &[u8; 32], nonce: &[u8; 12], plaintext: &[u8]) -> Vec<u8> {
    let key = aes_gcm::Key::<aes_gcm::Aes256Gcm>::from_slice(key_bytes);
    let cipher = <aes_gcm::Aes256Gcm as aes_gcm::KeyInit>::new(key);
    aes_gcm::aead::Aead::encrypt(&cipher, aes_gcm::Nonce::from_slice(nonce), plaintext).unwrap()
}

fn open_raw(key_bytes: &[u8; 32], nonce: &[u8], sealed: &[u8]) -> Option<Vec<u8>> {
    let key = aes_gcm::Key::<aes_gcm::Aes256Gcm>::from_slice(key_bytes);
    let cipher = <aes_gcm::Aes256Gcm as aes_gcm::KeyInit>::new(key);
    aes_gcm::aead::Aead::decrypt(&cipher, aes_gcm::Nonce::from_slice(nonce), sealed).ok()
}

#[test]
fn round_trip_returns_the_session() {
    let key = key();
    let session = Session::build("user-42", NOW);
    let token = session.as_encrypted(&key).unwrap();
    let back = validate(&key, &token, NOW).unwrap();
    assert_eq!(back, session);
    assert_eq!(back.sub(), "user-42");
    assert_eq!(back.exp(), NOW + 86_400);
    assert_eq!(back.csrf_token(), session.csrf_token());
}

#[test]
fn round_trip_holds_through_the_last_second() {
    let key = key();
    let session = sample();
    let token = session.as_encrypted_with(&key, &NONCE).unwrap();
    assert_eq!(validate(&key, &token, NOW + 86_399).unwrap(), session);
    assert_eq!(validate(&key, &token, NOW + 86_400).unwrap(), session);
    assert_eq!(validate(&key, &token, NOW + 86_401).err(), Some(AuthError::Expired));
    assert_eq!(validate(&key, &token, i64::MIN).unwrap(), session);
    assert_eq!(validate(&key, &token, i64::MAX).err(), Some(AuthError::Expired));
}

#[test]
fn round_trip_keeps_any_subject() {
    let key = key();
    let long = "0123456789abcdef0123456789abcdef0123456789";
    for sub in ["a", "user-42", "Zoë Ångström ✓", long] {
        let token = issue(&key, sub, NOW).unwrap();
        let back = validate(&key, &token, NOW + 1).unwrap();
        assert_eq!(back.sub(), sub);
        assert_eq!(back.exp(), NOW + 86_400);
        assert_eq!(back.csrf_token().len(), 32);
    }
}

#[test]
fn build_makes_the_documented_session() {
    let session = Session::build("user-42", NOW);
    assert_eq!(session.sub(), "user-42");
    assert_eq!(session.exp(), NOW + 86_400);
    assert_eq!(session.csrf_token().chars().count(), 32);
    assert!(session.csrf_token().chars().all(|c| c.is_ascii_alphanumeric()));
}

#[test]
fn build_draws_a_new_csrf_token_each_time() {
    let a = Session::build("user-42", NOW);
    let b = Session::build("user-42", NOW);
    assert_ne!(a.csrf_token(), b.csrf_token());
    assert_ne!(a, b);
}

#[test]
fn build_with_takes_the_given_token() {
    let session = Session::build_with("user-42", 100, CSRF.to_string());
    assert_eq!(session.sub(), "user-42");
    assert_eq!(session.exp(), 86_500);
    assert_eq!(session.csrf_token(), CSRF);
    let early = Session::build_with("", i64::MIN, String::new());
    assert_eq!(early.exp(), i64::MIN + 86_400);
    let late = Session::build_with("x", i64::MAX - 86_400, CSRF.to_string());
    assert_eq!(late.exp(), i64::MAX);
}

#[test]
fn scenario_user_42() {
    let key = key();
    let session = Session::build("user-42", NOW);
    assert_eq!(session.sub(), "user-42");
    assert_eq!(session.csrf_token().len(), 32);
    assert!(session.csrf_token().bytes().all(|b| b.is_ascii_alphanumeric()));
    assert_eq!(session.exp(), NOW + 86_400);
    let token = session.as_encrypted(&key).unwrap();
    assert_eq!(validate(&key, &token, NOW), Ok(session));
    let other = auth_key(Some(OTHER_SECRET)).unwrap();
    assert_eq!(validate(&other, &token, NOW).err(), Some(AuthError::Tampered));
}

#[test]
fn another_key_is_rejected() {
    let key = key();
    let other = auth_key(Some(OTHER_SECRET)).unwrap();
    let token = issue(&key, "user-42", NOW).unwrap();
    assert_eq!(validate(&other, &token, NOW).err(), Some(AuthError::Tampered));
    assert!(validate(&key, &token, NOW).is_ok());
}

#[test]
fn every_flipped_bit_is_detected() {
    let key = key();
    let token = sample().as_encrypted_with(&key, &NONCE).unwrap();
    let bytes = from_base64(&token);
    assert!(bytes.len() > 28);
    for i in 0..bytes.len() {
        for bit in 0..8 {
            let mut changed = bytes.clone();
            changed[i] ^= 1 << bit;
            let outcome = validate(&key, &to_base64(&changed), NOW);
            assert_eq!(outcome.err(), Some(AuthError::Tampered), "byte {i}, bit {bit}");
        }
    }
    assert!(validate(&key, &to_base64(&bytes), NOW).is_ok());
}

#[test]
fn a_cut_token_is_rejected() {
    let key = key();
    let token = sample().as_encrypted_with(&key, &NONCE).unwrap();
    let bytes = from_base64(&token);
    for len in 13..bytes.len() {
        let outcome = Session::from_encrypted(&key, &bytes[..len]);
        assert_eq!(outcome.err(), Some(AuthError::Tampered), "length {len}");
    }
    let mut longer = bytes.clone();
    longer.push(0);
    assert_eq!(Session::from_encrypted(&key, &longer).err(), Some(AuthError::Tampered));
}

#[test]
fn an_expired_session_is_rejected_though_authentic() {
    let key = key();
    // ends one second before NOW
    let session = Session::build_with("user-42", NOW - 1 - 86_400, CSRF.to_string());
    assert_eq!(session.exp(), NOW - 1);
    let token = session.as_encrypted_with(&key, &NONCE).unwrap();
    let bytes = from_base64(&token);
    assert_eq!(Session::from_encrypted(&key, &bytes), Ok(session));
    assert_eq!(validate(&key, &token, NOW).err(), Some(AuthError::Expired));
    assert_eq!(load_session(&key, Some(&token), NOW, "GET", None).err(), Some(AuthError::Expired));
    assert_eq!(load_session_unsafe(&key, Some(&token), NOW).err(), Some(AuthError::Expired));
    assert!(validate(&key, &token, NOW - 1).is_ok());
}

#[test]
fn check_expiry_keeps_a_session_through_its_last_second() {
    let s = Session::build_with("u", 0, CSRF.to_string());
    assert_eq!(check_expiry(s, 86_399), Ok(Session::build_with("u", 0, CSRF.to_string())));
    let s = Session::build_with("u", 0, CSRF.to_string());
    assert_eq!(check_expiry(s, 86_400), Ok(Session::build_with("u", 0, CSRF.to_string())));
    let s = Session::build_with("u", 0, CSRF.to_string());
    assert_eq!(check_expiry(s, 86_401), Err(AuthError::Expired));
}

#[test]
fn short_tokens_are_rejected_before_the_cipher() {
    let key = key();
    for len in 0..=12usize {
        let bytes = vec![0xAB; len];
        assert_eq!(Session::from_encrypted(&key, &bytes).err(), Some(AuthError::Undersized));
        assert_eq!(validate(&key, &to_base64(&bytes), NOW).err(), Some(AuthError::Undersized));
        assert_eq!(unframe(&bytes).err(), Some(AuthError::Undersized));
    }
    // one byte more reaches the cipher, which has no tag to check
    let bytes = vec![0xAB; 13];
    assert_eq!(Session::from_encrypted(&key, &bytes).err(), Some(AuthError::Tampered));
    assert_eq!(validate(&key, "", NOW).err(), Some(AuthError::Undersized));
}

#[test]
fn frame_puts_the_nonce_first() {
    let nonce = [1, 2, 3, 4, 5, 6, 7, 8, 9, 10, 11, 12];
    assert_eq!(frame(&nonce, &[]), nonce.to_vec());
    assert_eq!(
        frame(&nonce, &[13, 14, 15]),
        vec![1, 2, 3, 4, 5, 6, 7, 8, 9, 10, 11, 12, 13, 14, 15]
    );
}

#[test]
fn unframe_parts_nonce_and_rest() {
    let bytes: Vec<u8> = (1..=15).collect();
    let (nonce, sealed) = unframe(&bytes).unwrap();
    assert_eq!(nonce, &[1, 2, 3, 4, 5, 6, 7, 8, 9, 10, 11, 12]);
    assert_eq!(sealed, &[13, 14, 15]);
    let bytes: Vec<u8> = (1..=13).collect();
    let (nonce, sealed) = unframe(&bytes).unwrap();
    assert_eq!(nonce.len(), 12);
    assert_eq!(sealed, &[13]);
    assert_eq!(unframe(&frame(&NONCE, &[9, 9])).unwrap(), (&NONCE[..], &[9u8, 9][..]));
}

#[test]
fn a_token_is_base64_of_nonce_and_sealed_archive() {
    let key = key();
    let session = sample();
    let token = session.as_encrypted_with(&key, &NONCE).unwrap();
    assert!(token.bytes().all(|b| b.is_ascii_alphanumeric() || b"+/=".contains(&b)));
    assert_eq!(token.len() % 4, 0);
    let bytes = from_base64(&token);
    assert_eq!(&bytes[..12], &NONCE);
    let plaintext = session.encode().unwrap();
    assert_eq!(bytes.len(), 12 + plaintext.len() + 16);
    assert_eq!(&bytes[12..], &seal_raw(&[0; 32], &NONCE, &plaintext)[..]);
    assert_eq!(open_raw(&[0; 32], &bytes[..12], &bytes[12..]), Some(plaintext.clone()));
    assert_ne!(&bytes[12..12 + plaintext.len()], &plaintext[..]);
}

#[test]
fn a_token_shows_the_nonce_of_its_own_sealing() {
    let key = key();
    let session = sample();
    let plaintext = session.encode().unwrap();
    let mut seen = Vec::new();
    for first in 0..=255u8 {
        let mut nonce = NONCE;
        nonce[0] = first;
        let token = session.as_encrypted_with(&key, &nonce).unwrap();
        assert_eq!(token.len(), 4 * ((12 + plaintext.len() + 16 + 2) / 3));
        let bytes = from_base64(&token);
        assert_eq!(bytes.len(), 12 + plaintext.len() + 16);
        assert_eq!(&bytes[..12], &nonce);
        assert_eq!(&bytes[12..], &seal_raw(&[0; 32], &nonce, &plaintext)[..]);
        assert!(!seen.contains(&token));
        seen.push(token);
    }
    // a nonce that differs in its last bit alone gives another token too
    let mut nonce = NONCE;
    nonce[11] ^= 1;
    let token = session.as_encrypted_with(&key, &nonce).unwrap();
    assert!(!seen.contains(&token));
    assert_eq!(&from_base64(&token)[..12], &nonce);
}

#[test]
fn a_token_is_padded_to_whole_quads() {
    let key = key();
    for sub in ["", "a", "ab", "abc", "abcdefghi", "abcdefghij", "abcdefghijk"] {
        let session = Session::build_with(sub, NOW, CSRF.to_string());
        let plaintext = session.encode().unwrap();
        let token = session.as_encrypted_with(&key, &NONCE).unwrap();
        assert_eq!(token.len() % 4, 0);
        assert_eq!(token.len(), (12 + plaintext.len() + 16 + 2) / 3 * 4);
        assert_eq!(from_base64(&token).len(), 12 + plaintext.len() + 16);
    }
}

#[test]
fn the_smallest_session_makes_a_token_of_52_bytes() {
    let key = key();
    let session = Session::build_with("", NOW, String::new());
    assert_eq!(session.encode().unwrap().len(), 24);
    let token = session.as_encrypted_with(&key, &NONCE).unwrap();
    let bytes = from_base64(&token);
    assert_eq!(bytes.len(), 52);
    assert_eq!(Session::from_encrypted(&key, &bytes), Ok(session));
    // nothing authentic and shorter is a session
    for len in 0..24usize {
        let mut short = NONCE.to_vec();
        short.extend_from_slice(&seal_raw(&[0; 32], &NONCE, &vec![0xFF; len]));
        assert_eq!(short.len(), 28 + len);
        assert_eq!(Session::from_encrypted(&key, &short).err(), Some(AuthError::Undecodable));
    }
}

#[test]
fn cookie_bytes_needs_no_key() {
    assert_eq!(cookie_bytes(None), Err(AuthError::Absent));
    assert_eq!(cookie_bytes(Some("?")), Err(AuthError::Malformed));
    assert_eq!(cookie_bytes(Some("AAA")), Err(AuthError::Malformed));
    assert_eq!(cookie_bytes(Some("")), Err(AuthError::Undersized));
    assert_eq!(cookie_bytes(Some("AAAA")), Err(AuthError::Undersized));
    assert_eq!(cookie_bytes(Some(&to_base64(&[5; 12]))), Err(AuthError::Undersized));
    assert_eq!(cookie_bytes(Some(&to_base64(&[5; 13]))), Ok(vec![5; 13]));
    let key = key();
    let token = sample().as_encrypted_with(&key, &NONCE).unwrap();
    assert_eq!(cookie_bytes(Some(&token)), Ok(from_base64(&token)));
    // what is turned away here is turned away the same under every key
    let other = auth_key(Some(OTHER_SECRET)).unwrap();
    for cookie in [None, Some("?"), Some(""), Some("AAAA")] {
        let cause = cookie_bytes(cookie).err();
        assert_eq!(load_session_unsafe(&key, cookie, NOW).err(), cause);
        assert_eq!(load_session_unsafe(&other, cookie, NOW).err(), cause);
        assert_eq!(load_session(&key, cookie, NOW, "POST", None).err(), cause);
    }
}

#[test]
fn a_text_longer_than_an_archive_records_has_no_byte_form() {
    let key = key();
    let long = "a".repeat(0x4000_0000);
    let session = Session::build_with(&long, NOW, CSRF.to_string());
    assert_eq!(session.encode(), None);
    assert_eq!(session.as_encrypted_with(&key, &NONCE), None);
    assert_eq!(session.as_encrypted(&key), None);
    let session = Session::build_with("user-42", NOW, long);
    assert_eq!(session.encode(), None);
    assert_eq!(session.as_encrypted_with(&key, &NONCE), None);
}

#[test]
fn long_texts_are_archived_and_read_back() {
    let key = key();
    let sub = "ü".repeat(1_500_000);
    let csrf = "z".repeat(70_001);
    let session = Session::build_with(&sub, NOW, csrf.clone());
    let bytes = session.encode().unwrap();
    assert!(bytes.len() >= 3_000_000 + 70_001 + 24);
    assert!(bytes.len() <= 3_000_000 + 70_001 + 24 + 7);
    let back = Session::decode(&bytes).unwrap();
    assert_eq!(back.sub().len(), 3_000_000);
    assert_eq!(back, session);
    let token = session.as_encrypted_with(&key, &NONCE).unwrap();
    let valid = validate(&key, &token, NOW).unwrap();
    assert_eq!(valid.csrf_token(), csrf);
    assert_eq!(valid, session);
}

#[test]
fn sealing_is_a_function_of_key_nonce_and_session() {
    let key = key();
    let a = sample().as_encrypted_with(&key, &NONCE).unwrap();
    let b = sample().as_encrypted_with(&key, &NONCE).unwrap();
    assert_eq!(a, b);
    let c = sample().as_encrypted_with(&key, &[8; 12]).unwrap();
    assert_ne!(a, c);
    let other = auth_key(Some(OTHER_SECRET)).unwrap();
    let d = sample().as_encrypted_with(&other, &NONCE).unwrap();
    assert_ne!(a, d);
}

#[test]
fn as_encrypted_draws_a_new_nonce_each_time() {
    let key = key();
    let session = sample();
    let a = session.as_encrypted(&key).unwrap();
    let b = session.as_encrypted(&key).unwrap();
    assert_ne!(a, b);
    assert_ne!(from_base64(&a)[..12], from_base64(&b)[..12]);
    assert_eq!(validate(&key, &a, NOW), validate(&key, &b, NOW));
}

#[test]
fn a_token_sealed_elsewhere_is_read() {
    let key = key();
    let fields = ("user-42".to_string(), NOW + 10, CSRF.to_string());
    let archive = rkyv::to_bytes::<rkyv::rancor::Error>(&fields).unwrap();
    let mut bytes = NONCE.to_vec();
    bytes.extend_from_slice(&seal_raw(&[0; 32], &NONCE, &archive));
    let session = validate(&key, &to_base64(&bytes), NOW).unwrap();
    assert_eq!(session.sub(), "user-42");
    assert_eq!(session.exp(), NOW + 10);
    assert_eq!(session.csrf_token(), CSRF);
}

#[test]
fn encode_is_the_archive_of_the_three_fields() {
    let session = sample();
    let bytes = session.encode().unwrap();
    let fields = ("user-42".to_string(), NOW + 86_400, CSRF.to_string());
    let archive = rkyv::to_bytes::<rkyv::rancor::Error>(&fields).unwrap();
    assert_eq!(bytes, archive.to_vec());
    assert_eq!(bytes, sample().encode().unwrap());
    assert_ne!(bytes, Session::build_with("user-43", NOW, CSRF.to_string()).encode().unwrap());
}

#[test]
fn decode_inverts_encode() {
    let session = sample();
    let bytes = session.encode().unwrap();
    assert_eq!(Session::decode(&bytes), Ok(session));
    let odd = Session::build_with("", -5 - 86_400, "Ünïcödé".to_string());
    assert_eq!(odd.exp(), -5);
    assert_eq!(Session::decode(&odd.encode().unwrap()), Ok(odd));
}

#[test]
fn decode_rejects_what_is_no_archive() {
    assert_eq!(Session::decode(&[]).err(), Some(CodecError));
    assert_eq!(Session::decode(&[1, 2, 3]).err(), Some(CodecError));
    assert_eq!(Session::decode(&[0x80; 24]).err(), Some(CodecError));
    assert_eq!(Session::decode(&[0xC0; 24]).err(), Some(CodecError));
    let bytes = sample().encode().unwrap();
    assert_eq!(Session::decode(&bytes[..bytes.len() - 8]).err(), Some(CodecError));
    assert_eq!(Session::decode(&bytes[8..]).err(), Some(CodecError));
}

#[test]
fn decode_reads_the_smallest_archive() {
    // two empty strings, stored in place, around the number -1
    let session = Session::decode(&[0xFF; 24]).unwrap();
    assert_eq!(session, Session::build_with("", -1 - 86_400, String::new()));
    assert_eq!(session.encode().unwrap(), vec![0xFF; 24]);
}

#[test]
fn decode_takes_noise_without_harm() {
    let mut state: u64 = 0x2545_F491_4F6C_DD1D;
    let mut read = 0;
    for round in 0..4000usize {
        let len = round % 97;
        let mut bytes = Vec::with_capacity(len);
        for _ in 0..len {
            state ^= state << 13;
            state ^= state >> 7;
            state ^= state << 17;
            bytes.push((state >> 32) as u8);
        }
        // what reads as a session is one: it has a byte form that reads back
        if let Ok(session) = Session::decode(&bytes) {
            assert!(len >= 24);
            read += 1;
            let again = session.encode().unwrap();
            assert_eq!(Session::decode(&again), Ok(session));
        }
    }
    assert!(read < 4000);
}

#[test]
fn validate_takes_noise_without_harm() {
    let key = key();
    let mut state: u64 = 0x9E37_79B9_7F4A_7C15;
    for round in 0..2000usize {
        let len = round % 120;
        let mut bytes = Vec::with_capacity(len);
        for _ in 0..len {
            state ^= state << 13;
            state ^= state >> 7;
            state ^= state << 17;
            bytes.push((state >> 24) as u8);
        }
        let expected = if len <= 12 { AuthError::Undersized } else { AuthError::Tampered };
        assert_eq!(Session::from_encrypted(&key, &bytes).err(), Some(expected));
        assert_eq!(validate(&key, &to_base64(&bytes), NOW).err(), Some(expected));
    }
}

#[test]
fn an_authentic_token_with_another_plaintext_is_undecodable() {
    let key = key();
    let mut bytes = NONCE.to_vec();
    bytes.extend_from_slice(&seal_raw(&[0; 32], &NONCE, b"not a session"));
    assert_eq!(Session::from_encrypted(&key, &bytes).err(), Some(AuthError::Undecodable));
    assert_eq!(validate(&key, &to_base64(&bytes), NOW).err(), Some(AuthError::Undecodable));
    // an empty plaintext leaves the tag alone behind the nonce
    let mut bytes = NONCE.to_vec();
    bytes.extend_from_slice(&seal_raw(&[0; 32], &NONCE, b""));
    assert_eq!(bytes.len(), 28);
    assert_eq!(Session::from_encrypted(&key, &bytes).err(), Some(AuthError::Undecodable));
}

#[test]
fn a_token_that_is_not_base64_is_malformed() {
    let key = key();
    assert_eq!(validate(&key, "not base64!", NOW).err(), Some(AuthError::Malformed));
    assert_eq!(validate(&key, "AAA", NOW).err(), Some(AuthError::Malformed));
    let token = sample().as_encrypted_with(&key, &NONCE).unwrap();
    let unpadded = token.trim_end_matches('=');
    if unpadded.len() != token.len() {
        assert_eq!(validate(&key, unpadded, NOW).err(), Some(AuthError::Malformed));
    }
    let spaced = format!(" {token}");
    assert_eq!(validate(&key, &spaced, NOW).err(), Some(AuthError::Malformed));
}

#[test]
fn auth_key_reads_base64_of_32_bytes() {
    let key = auth_key(Some(OTHER_SECRET)).unwrap();
    // the key is the 32 bytes of 0x01: it opens what those bytes sealed
    let archive = sample().encode().unwrap();
    let mut bytes = NONCE.to_vec();
    bytes.extend_from_slice(&seal_raw(&[1; 32], &NONCE, &archive));
    assert_eq!(Session::from_encrypted(&key, &bytes), Ok(sample()));
    assert!(verify_auth_key(Some(OTHER_SECRET)).is_ok());
}

#[test]
fn missing_secret_is_a_config_error() {
    assert_eq!(auth_key(None).err(), Some(ConfigError::Missing));
    assert_eq!(verify_auth_key(None), Err(ConfigError::Missing));
}

#[test]
fn malformed_secret_is_a_config_error() {
    assert_eq!(auth_key(Some("***")).err(), Some(ConfigError::Malformed));
    assert_eq!(verify_auth_key(Some("not base64")), Err(ConfigError::Malformed));
    // the right bytes without the padding are no standard base64
    assert_eq!(
        auth_key(Some(SECRET.trim_end_matches('='))).err(),
        Some(ConfigError::Malformed)
    );
}

#[test]
fn secret_of_another_length_is_a_config_error() {
    assert_eq!(auth_key(Some("")).err(), Some(ConfigError::WrongLength));
    assert_eq!(auth_key(Some(&to_base64(&[0; 31]))).err(), Some(ConfigError::WrongLength));
    assert_eq!(auth_key(Some(&to_base64(&[0; 33]))).err(), Some(ConfigError::WrongLength));
    assert_eq!(auth_key(Some(&to_base64(&[0; 16]))).err(), Some(ConfigError::WrongLength));
    assert_eq!(verify_auth_key(Some(&to_base64(&[0; 64]))), Err(ConfigError::WrongLength));
    assert!(auth_key(Some(&to_base64(&[0; 32]))).is_ok());
}

#[test]
fn key_from_bytes_wants_32_of_them() {
    assert!(AuthKey::from_bytes(vec![9; 32]).is_ok());
    assert_eq!(AuthKey::from_bytes(vec![]).err(), Some(ConfigError::WrongLength));
    assert_eq!(AuthKey::from_bytes(vec![9; 31]).err(), Some(ConfigError::WrongLength));
    assert_eq!(AuthKey::from_bytes(vec![9; 33]).err(), Some(ConfigError::WrongLength));
    let key = AuthKey::from_bytes(vec![1; 32]).unwrap();
    let token = sample().as_encrypted_with(&key, &NONCE).unwrap();
    let same = auth_key(Some(OTHER_SECRET)).unwrap();
    assert_eq!(validate(&same, &token, NOW), Ok(sample()));
}

#[test]
fn get_needs_no_header() {
    let session = sample();
    assert_eq!(authorize(&session, "GET", None), Ok(Access::Read));
    assert_eq!(authorize(&session, "GET", Some("wrong")), Ok(Access::Read));
    assert_eq!(authorize(&session, "GET", Some(CSRF)), Ok(Access::Read));
    let key = key();
    let token = session.as_encrypted_with(&key, &NONCE).unwrap();
    assert_eq!(load_session(&key, Some(&token), NOW, "GET", None), Ok(sample()));
    assert_eq!(load_session(&key, Some(&token), NOW, "GET", Some("wrong")), Ok(sample()));
}

#[test]
fn a_mutation_needs_the_sessions_token() {
    let session = sample();
    for method in ["POST", "PUT", "PATCH", "DELETE", "HEAD", "OPTIONS", "get", "Get", "GET ", ""] {
        assert_eq!(authorize(&session, method, None), Err(AuthError::CsrfMismatch), "{method}");
        assert_eq!(authorize(&session, method, Some("")), Err(AuthError::CsrfMismatch));
        assert_eq!(
            authorize(&session, method, Some("abcdefghijklmnopqrstuvwxyz012346")),
            Err(AuthError::CsrfMismatch)
        );
        assert_eq!(
            authorize(&session, method, Some("ABCDEFGHIJKLMNOPQRSTUVWXYZ012345")),
            Err(AuthError::CsrfMismatch)
        );
        assert_eq!(
            authorize(&session, method, Some("abcdefghijklmnopqrstuvwxyz01234")),
            Err(AuthError::CsrfMismatch)
        );
        assert_eq!(
            authorize(&session, method, Some("abcdefghijklmnopqrstuvwxyz0123456")),
            Err(AuthError::CsrfMismatch)
        );
        assert_eq!(authorize(&session, method, Some(CSRF)), Ok(Access::Mutation), "{method}");
    }
}

#[test]
fn load_session_gates_mutations() {
    let key = key();
    let token = sample().as_encrypted_with(&key, &NONCE).unwrap();
    let cookie = Some(token.as_str());
    assert_eq!(load_session(&key, cookie, NOW, "POST", None).err(), Some(AuthError::CsrfMismatch));
    assert_eq!(
        load_session(&key, cookie, NOW, "POST", Some("nope")).err(),
        Some(AuthError::CsrfMismatch)
    );
    assert_eq!(load_session(&key, cookie, NOW, "POST", Some(CSRF)), Ok(sample()));
    assert_eq!(load_session(&key, cookie, NOW, "DELETE", Some(CSRF)), Ok(sample()));
}

#[test]
fn load_session_reports_the_first_failure() {
    let key = key();
    assert_eq!(load_session(&key, None, NOW, "GET", None).err(), Some(AuthError::Absent));
    assert_eq!(load_session(&key, None, NOW, "POST", None).err(), Some(AuthError::Absent));
    assert_eq!(load_session(&key, Some("?"), NOW, "POST", None).err(), Some(AuthError::Malformed));
    assert_eq!(
        load_session(&key, Some("AAAA"), NOW, "POST", None).err(),
        Some(AuthError::Undersized)
    );
    let token = sample().as_encrypted_with(&key, &NONCE).unwrap();
    let other = auth_key(Some(OTHER_SECRET)).unwrap();
    assert_eq!(
        load_session(&other, Some(&token), NOW, "POST", Some(CSRF)).err(),
        Some(AuthError::Tampered)
    );
    assert_eq!(
        load_session(&key, Some(&token), NOW + 86_401, "POST", None).err(),
        Some(AuthError::Expired)
    );
}

#[test]
fn the_bypass_skips_the_csrf_check_only() {
    let key = key();
    let token = sample().as_encrypted_with(&key, &NONCE).unwrap();
    let cookie = Some(token.as_str());
    assert!(load_session(&key, cookie, NOW, "POST", None).is_err());
    let loaded = load_session_unsafe(&key, cookie, NOW).ok().unwrap();
    assert_eq!(loaded.into_inner(), sample());
    assert_eq!(load_session_unsafe(&key, None, NOW).err(), Some(AuthError::Absent));
    assert_eq!(load_session_unsafe(&key, Some("%"), NOW).err(), Some(AuthError::Malformed));
    assert_eq!(load_session_unsafe(&key, Some("AAAA"), NOW).err(), Some(AuthError::Undersized));
    assert_eq!(
        load_session_unsafe(&key, cookie, NOW + 86_401).err(),
        Some(AuthError::Expired)
    );
    let other = auth_key(Some(OTHER_SECRET)).unwrap();
    assert_eq!(load_session_unsafe(&other, cookie, NOW).err(), Some(AuthError::Tampered));
}

#[test]
fn every_failure_is_one_answer() {
    let all = [
        AuthError::Absent,
        AuthError::Malformed,
        AuthError::Undersized,
        AuthError::Tampered,
        AuthError::Undecodable,
        AuthError::Expired,
        AuthError::CsrfMismatch,
    ];
    for error in all {
        assert_eq!(error.erase(), Unauthorized);
    }
}

#[test]
fn sessions_are_equal_by_their_fields() {
    assert_eq!(sample(), sample());
    assert_ne!(sample(), Session::build_with("user-43", NOW, CSRF.to_string()));
    assert_ne!(sample(), Session::build_with("user-42", NOW + 1, CSRF.to_string()));
    assert_ne!(sample(), Session::build_with("user-42", NOW, CSRF.to_uppercase()));
}
