use auth_core::errors::AppError;
use auth_core::jwt::create_token;
use auth_core::middleware::{extract_token, AuthMiddleware, AuthRequest};
use auth_core::models::InsertUser;
use auth_core::store::Store;

const NOW: u64 = 1_700_000_000;
const SECRET: &[u8] = b"unit-test-signing-key";

fn signup(store: &mut Store, email: &str, username: &str) -> String {
    store
        .insert_user(
            InsertUser {
                first_name: "Ada".to_string(),
                last_name: "L".to_string(),
                username: username.to_string(),
                email: email.to_string(),
                password: "pw".to_string(),
            },
            NOW,
        )
        .unwrap()
        .id
}

fn req(cookie: Option<&str>, header: Option<&str>) -> AuthRequest {
    AuthRequest {
        cookie_token: cookie.map(|s| s.to_string()),
        authorization: header.map(|s| s.to_string()),
    }
}

#[test]
fn extraction_prefers_wellformed_header_over_cookie() {
    assert_eq!(extract_token(&req(None, None)), None);
    assert_eq!(extract_token(&req(Some("ck"), None)), Some("ck".to_string()));
    assert_eq!(extract_token(&req(None, Some("Bearer hd"))), Some("hd".to_string()));
    assert_eq!(extract_token(&req(Some("ck"), Some("Bearer hd"))), Some("hd".to_string()));
    // A malformed header contributes nothing; the cookie still counts.
    assert_eq!(extract_token(&req(Some("ck"), Some("Token hd"))), Some("ck".to_string()));
    assert_eq!(extract_token(&req(None, Some("short"))), None);
}

#[test]
fn valid_token_resolves_identity_from_either_transport() {
    let mut store = Store::new();
    let id = signup(&mut store, "a@x.com", "ada");
    let token = create_token(&id, 60, NOW, SECRET).unwrap();
    let svc = AuthMiddleware.new_transform();

    let via_header = svc
        .call(&req(None, Some(&format!("Bearer {}", token))), &store, NOW, SECRET)
        .unwrap();
    assert_eq!(via_header.id, id);
    assert_eq!(via_header.email, "a@x.com");

    let via_cookie = svc.call(&req(Some(&token), None), &store, NOW, SECRET).unwrap();
    assert_eq!(via_cookie.id, id);
}

#[test]
fn missing_and_invalid_tokens_are_unauthorized() {
    let mut store = Store::new();
    signup(&mut store, "a@x.com", "ada");
    let svc = AuthMiddleware.new_transform();

    let missing = svc.call(&req(None, None), &store, NOW, SECRET);
    assert_eq!(missing.unwrap_err(), AppError::Unauthorized);

    let garbage = svc.call(&req(Some("not-a-token"), None), &store, NOW, SECRET);
    assert_eq!(garbage.unwrap_err(), AppError::Unauthorized);
}

#[test]
fn expired_token_is_unauthorized() {
    let mut store = Store::new();
    let id = signup(&mut store, "a@x.com", "ada");
    let token = create_token(&id, 1, NOW, SECRET).unwrap();
    let svc = AuthMiddleware.new_transform();
    let r = svc.call(&req(Some(&token), None), &store, NOW + 61, SECRET);
    assert_eq!(r.unwrap_err(), AppError::Unauthorized);
}

#[test]
fn valid_token_without_backing_identity_is_an_internal_error() {
    let store = Store::new();
    let token = create_token("dangling-subject", 60, NOW, SECRET).unwrap();
    let svc = AuthMiddleware.new_transform();
    let r = svc.call(&req(Some(&token), None), &store, NOW, SECRET);
    assert_eq!(r.unwrap_err(), AppError::InternalError);
}
