use auth_core::errors::AppError;
use auth_core::jwt::{create_token, decode_token};

const SECRET: &[u8] = b"unit-test-signing-key";
const NOW: u64 = 1_700_000_000;

#[test]
fn issued_token_verifies_to_its_subject() {
    let token = create_token("user-42", 60, NOW, SECRET).unwrap();
    let subject = decode_token(&token, NOW, SECRET).unwrap();
    assert_eq!(subject, "user-42");
}

#[test]
fn issued_token_verifies_for_several_subjects_and_ttls() {
    for (sub, ttl) in [("a", 1u64), ("some-longer-subject-id", 1440), ("x-1", 7)] {
        let token = create_token(sub, ttl, NOW, SECRET).unwrap();
        assert_eq!(decode_token(&token, NOW, SECRET).unwrap(), sub);
    }
}

#[test]
fn expired_token_is_rejected() {
    let token = create_token("user-42", 1, NOW, SECRET).unwrap();
    // The token expires at NOW + 60; at any later instant it must fail.
    let r = decode_token(&token, NOW + 61, SECRET);
    assert_eq!(r, Err(AppError::Unauthorized));
    // Expiry is strict: at the expiry instant itself the token is dead.
    let r2 = decode_token(&token, NOW + 60, SECRET);
    assert_eq!(r2, Err(AppError::Unauthorized));
    // Just before expiry it still verifies.
    assert_eq!(decode_token(&token, NOW + 59, SECRET).unwrap(), "user-42");
}

#[test]
fn empty_subject_is_a_validation_error() {
    for ttl in [0u64, 1, 60, 100_000] {
        let r = create_token("", ttl, NOW, SECRET);
        assert!(matches!(r, Err(AppError::ValidationError)));
    }
}

#[test]
fn tampered_token_is_rejected() {
    let token = create_token("user-42", 60, NOW, SECRET).unwrap();
    let mut chars: Vec<char> = token.chars().collect();
    let last = chars.len() - 1;
    chars[last] = if chars[last] == 'A' { 'B' } else { 'A' };
    let tampered: String = chars.iter().collect();
    assert_eq!(decode_token(&tampered, NOW, SECRET), Err(AppError::Unauthorized));
}

#[test]
fn token_signed_with_other_secret_is_rejected() {
    let token = create_token("user-42", 60, NOW, b"some-other-key").unwrap();
    assert_eq!(decode_token(&token, NOW, SECRET), Err(AppError::Unauthorized));
}

#[test]
fn garbage_token_is_rejected() {
    assert_eq!(decode_token("not.a.token", NOW, SECRET), Err(AppError::Unauthorized));
    assert_eq!(decode_token("", NOW, SECRET), Err(AppError::Unauthorized));
}

#[test]
fn largest_ttl_that_fits_still_round_trips() {
    // The expiry instant may sit anywhere in the 64-bit range.
    let ttl = (u64::MAX - NOW) / 60;
    let token = create_token("user-42", ttl, NOW, SECRET).unwrap();
    assert_eq!(decode_token(&token, NOW, SECRET).unwrap(), "user-42");
}

#[test]
fn token_is_not_the_bare_subject() {
    // The encoder must actually have produced a signed structure, not handed
    // the subject back.
    let token = create_token("user-42", 60, NOW, SECRET).unwrap();
    assert_ne!(token, "user-42");
    assert_eq!(token.matches('.').count(), 2);
}
