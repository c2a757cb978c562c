use auth_core::password::{hash_password, verify_password};

#[test]
fn digest_verifies_for_exact_plaintext_only() {
    let digest = hash_password("hunter2").unwrap();
    assert!(verify_password("hunter2", &digest));
    assert!(!verify_password("hunter3", &digest));
    assert!(!verify_password("Hunter2", &digest));
    assert!(!verify_password("", &digest));
}

#[test]
fn empty_password_round_trips() {
    let digest = hash_password("").unwrap();
    assert!(verify_password("", &digest));
    assert!(!verify_password(" ", &digest));
}

#[test]
fn unicode_password_round_trips() {
    let digest = hash_password("pässwörd-日本語-🔑").unwrap();
    assert!(verify_password("pässwörd-日本語-🔑", &digest));
    assert!(!verify_password("pässwörd-日本語", &digest));
}

#[test]
fn digest_is_not_the_plaintext() {
    let digest = hash_password("hunter2").unwrap();
    assert_ne!(digest, "hunter2");
    assert_eq!(digest.len(), 60);
    assert!(digest.starts_with("$2"));
}

#[test]
fn malformed_digest_never_verifies_and_never_panics() {
    assert!(!verify_password("anything", "not-a-digest"));
    assert!(!verify_password("anything", ""));
    assert!(!verify_password("anything", "$2b$04$tooshort"));
}

#[test]
fn two_digests_of_one_password_differ_but_both_verify() {
    let d1 = hash_password("same-password").unwrap();
    let d2 = hash_password("same-password").unwrap();
    // Fresh random salts make the digests distinct...
    assert_ne!(d1, d2);
    // ...yet each verifies the password.
    assert!(verify_password("same-password", &d1));
    assert!(verify_password("same-password", &d2));
}
