//! Issuing a token and verifying it again.

use identity_token::config::TokenConfig;
use identity_token::error::{ErrorClass, IssueError, VerifyError};
use identity_token::jwt::{generate_token, is_valid};
use std::time::{SystemTime, UNIX_EPOCH};

fn unix_now() -> u64 {
    SystemTime::now().duration_since(UNIX_EPOCH).expect("Time went backwards").as_secs()
}

fn hour_config() -> TokenConfig {
    TokenConfig::new(b"a-signing-key-for-tests".to_vec(), 3600, 0)
}

#[test]
fn test_is_valid() {
    let config = hour_config();
    let now = unix_now();
    let token = generate_token("abc".to_string(), true, &config, now).unwrap();

    let outcome = is_valid(&token, config.secret(), now);
    let is_valid = outcome.is_ok();
    let (is_admin, name) = outcome.unwrap();
    assert_eq!(is_valid, true);
    assert_eq!(is_admin, true);
    assert_eq!(name, "abc".to_string());
}

#[test]
fn abc_privileged_one_hour_verifies_at_once() {
    let config = TokenConfig::new(b"secret".to_vec(), 3600, 0);
    let token = generate_token("abc".to_string(), true, &config, 1_700_000_000).unwrap();
    assert_eq!(is_valid(&token, config.secret(), 1_700_000_000), Ok((true, "abc".to_string())));
}

#[test]
fn round_trip_keeps_subject_and_flag() {
    let config = TokenConfig::new(b"secret".to_vec(), 60, 5);
    let subjects = ["", "abc", "a b\tc", "quote\"back\\slash", "\u{0}\u{1f}", "žluťoučký 🦀", "name"];
    for subject in subjects {
        for flag in [false, true] {
            let token = generate_token(subject.to_string(), flag, &config, 1000).unwrap();
            assert_eq!(is_valid(&token, config.secret(), 1000), Ok((flag, subject.to_string())));
        }
    }
}

#[test]
fn round_trip_holds_through_the_whole_window() {
    let config = TokenConfig::new(b"secret".to_vec(), 60, 5);
    let token = generate_token("abc".to_string(), false, &config, 1000).unwrap();
    for now in 995..1060 {
        assert_eq!(is_valid(&token, config.secret(), now), Ok((false, "abc".to_string())));
    }
}

#[test]
fn round_trip_with_an_empty_secret() {
    let config = TokenConfig::new(Vec::new(), 60, 0);
    let token = generate_token("abc".to_string(), true, &config, 1000).unwrap();
    assert_eq!(is_valid(&token, config.secret(), 1000), Ok((true, "abc".to_string())));
}

#[test]
fn round_trip_at_the_largest_timestamps() {
    let config = TokenConfig::new(b"secret".to_vec(), 1, 0);
    let token = generate_token("abc".to_string(), true, &config, u64::MAX - 1).unwrap();
    assert_eq!(is_valid(&token, config.secret(), u64::MAX - 1), Ok((true, "abc".to_string())));
    assert_eq!(is_valid(&token, config.secret(), u64::MAX), Err(VerifyError::Expired));
}

#[test]
fn zero_expiration_offset_is_expired_at_once() {
    let config = TokenConfig::new(b"secret".to_vec(), 0, 0);
    let token = generate_token("abc".to_string(), true, &config, 1000).unwrap();
    let outcome = is_valid(&token, config.secret(), 1000);
    assert_eq!(outcome, Err(VerifyError::Expired));
    assert_eq!(outcome.unwrap_err().class(), ErrorClass::Unauthorized);
    assert_eq!(is_valid(&token, config.secret(), 1001), Err(VerifyError::Expired));
}

#[test]
fn clock_past_the_expiry_is_expired() {
    let config = TokenConfig::new(b"secret".to_vec(), 3600, 0);
    let token = generate_token("abc".to_string(), true, &config, 1000).unwrap();
    assert_eq!(is_valid(&token, config.secret(), 4599), Ok((true, "abc".to_string())));
    assert_eq!(is_valid(&token, config.secret(), 4600), Err(VerifyError::Expired));
    assert_eq!(is_valid(&token, config.secret(), 4601), Err(VerifyError::Expired));
    assert_eq!(is_valid(&token, config.secret(), u64::MAX), Err(VerifyError::Expired));
}

#[test]
fn not_before_offset_reaches_back() {
    let config = TokenConfig::new(b"secret".to_vec(), 3600, 30);
    let token = generate_token("abc".to_string(), false, &config, 1000).unwrap();
    assert_eq!(is_valid(&token, config.secret(), 1000), Ok((false, "abc".to_string())));
    assert_eq!(is_valid(&token, config.secret(), 985), Ok((false, "abc".to_string())));
    assert_eq!(is_valid(&token, config.secret(), 970), Ok((false, "abc".to_string())));
    assert_eq!(is_valid(&token, config.secret(), 969), Err(VerifyError::NotYetValid));
    assert_eq!(is_valid(&token, config.secret(), 0), Err(VerifyError::NotYetValid));
}

#[test]
fn every_altered_signature_byte_is_refused() {
    let config = TokenConfig::new(b"secret".to_vec(), 3600, 0);
    let token = generate_token("abc".to_string(), true, &config, 1000).unwrap();
    let start = token.rfind('.').unwrap() + 1;
    assert_eq!(token.len() - start, 43);
    for position in start..token.len() {
        for replacement in ['A', 'B', 'z', '0', '-', '_', '=', '.', ' '] {
            let mut bytes = token.clone().into_bytes();
            if bytes[position] == replacement as u8 {
                continue;
            }
            bytes[position] = replacement as u8;
            let altered = String::from_utf8(bytes).unwrap();
            assert!(is_valid(&altered, config.secret(), 1000).is_err());
        }
    }
}

#[test]
fn altered_signature_letter_is_a_bad_signature() {
    let config = TokenConfig::new(b"secret".to_vec(), 3600, 60);
    let token = generate_token("abc".to_string(), true, &config, 1000).unwrap();
    let mut altered = token.clone();
    let last = altered.pop().unwrap();
    altered.push(if last == 'A' { 'B' } else { 'A' });
    assert_eq!(is_valid(&altered, config.secret(), 1000), Err(VerifyError::BadSignature));
    let mut shortened = token.clone();
    shortened.pop();
    assert_eq!(is_valid(&shortened, config.secret(), 1000), Err(VerifyError::BadSignature));
}

#[test]
fn altered_payload_is_refused() {
    let config = TokenConfig::new(b"secret".to_vec(), 3600, 0);
    let token = generate_token("abc".to_string(), false, &config, 1000).unwrap();
    let other = generate_token("abc".to_string(), true, &config, 1000).unwrap();
    let signature = &token[token.rfind('.').unwrap()..];
    let forged = format!("{}{}", &other[..other.rfind('.').unwrap()], signature);
    assert_eq!(is_valid(&forged, config.secret(), 1000), Err(VerifyError::BadSignature));
}

#[test]
fn another_secret_is_refused() {
    let issuer = TokenConfig::new(b"secret".to_vec(), 3600, 0);
    let token = generate_token("abc".to_string(), true, &issuer, 1000).unwrap();
    for secret in [&b"Secret"[..], &b"secre"[..], &b"secrets"[..], &b""[..], &b"other"[..]] {
        assert_eq!(is_valid(&token, secret, 1000), Err(VerifyError::BadSignature));
    }
}

#[test]
fn issued_token_has_the_expected_text() {
    let config = TokenConfig::new(b"secret".to_vec(), 3600, 60);
    let token = generate_token("abc".to_string(), true, &config, 1000).unwrap();
    assert_eq!(
        token,
        "eyJ0eXAiOiJKV1QiLCJhbGciOiJIUzI1NiJ9.\
         eyJleHAiOjQ2MDAsImlzX2FkbWluIjp0cnVlLCJuYW1lIjoiYWJjIiwibmJmIjo5NDB9.\
         fGy0o7cjVWHCY4Fn_oc1R4ZLIgXswZxmPty7i5gGgnI"
    );
}

#[test]
fn issued_token_is_three_base64url_segments() {
    let config = TokenConfig::new(b"secret".to_vec(), 3600, 60);
    for subject in ["", "abc", "žluťoučký 🦀", "a.b.c", "+/="] {
        let token = generate_token(subject.to_string(), true, &config, 1000).unwrap();
        let segments: Vec<&str> = token.split('.').collect();
        assert_eq!(segments.len(), 3);
        for segment in segments {
            assert!(!segment.is_empty());
            assert!(segment.chars().all(|c| c.is_ascii_alphanumeric() || c == '-' || c == '_'));
        }
    }
}

#[test]
fn issuing_twice_gives_the_same_token() {
    let config = TokenConfig::new(b"secret".to_vec(), 3600, 60);
    let first = generate_token("abc".to_string(), true, &config, 1000).unwrap();
    let second = generate_token("abc".to_string(), true, &config, 1000).unwrap();
    assert_eq!(first, second);
    let later = generate_token("abc".to_string(), true, &config, 1001).unwrap();
    assert_ne!(first, later);
}

#[test]
fn window_that_overflows_is_not_issued() {
    let config = TokenConfig::new(b"secret".to_vec(), 1, 0);
    assert_eq!(
        generate_token("abc".to_string(), true, &config, u64::MAX),
        Err(IssueError::WindowOutOfRange)
    );
    let config = TokenConfig::new(b"secret".to_vec(), u64::MAX, 0);
    assert_eq!(
        generate_token("abc".to_string(), true, &config, 1),
        Err(IssueError::WindowOutOfRange)
    );
    assert!(generate_token("abc".to_string(), true, &config, 0).is_ok());
}

#[test]
fn not_before_ahead_of_the_epoch_is_not_issued() {
    let config = TokenConfig::new(b"secret".to_vec(), 3600, 1001);
    assert_eq!(
        generate_token("abc".to_string(), true, &config, 1000),
        Err(IssueError::WindowOutOfRange)
    );
    let config = TokenConfig::new(b"secret".to_vec(), 3600, 1000);
    let token = generate_token("abc".to_string(), true, &config, 1000).unwrap();
    assert_eq!(is_valid(&token, config.secret(), 0), Ok((true, "abc".to_string())));
}
