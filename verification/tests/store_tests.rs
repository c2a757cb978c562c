use auth_core::errors::AppError;
use auth_core::models::{AccountStatus, InsertUser, LoginUser, UpdateUser};
use auth_core::store::{login, Store};

const NOW: u64 = 1_700_000_000;
const SECRET: &[u8] = b"unit-test-signing-key";

fn signup(store: &mut Store, email: &str, username: &str, password: &str) -> auth_core::models::SavedUser {
    store
        .insert_user(
            InsertUser {
                first_name: "Ada".to_string(),
                last_name: "L".to_string(),
                username: username.to_string(),
                email: email.to_string(),
                password: password.to_string(),
            },
            NOW,
        )
        .unwrap()
}

#[test]
fn wrong_password_and_unknown_email_are_indistinguishable() {
    let mut store = Store::new();
    signup(&mut store, "a@x.com", "ada", "right-password");
    let wrong = store.get_user_info_by_credentials(&LoginUser {
        email: "a@x.com".to_string(),
        password: "wrong-password".to_string(),
    });
    let unknown = store.get_user_info_by_credentials(&LoginUser {
        email: "nobody@x.com".to_string(),
        password: "anything".to_string(),
    });
    assert!(wrong.is_none());
    assert!(unknown.is_none());
}

#[test]
fn correct_credentials_return_trimmed_view() {
    let mut store = Store::new();
    let su = signup(&mut store, "a@x.com", "ada", "pw-1");
    let found = store
        .get_user_info_by_credentials(&LoginUser {
            email: "a@x.com".to_string(),
            password: "pw-1".to_string(),
        })
        .unwrap();
    assert_eq!(found.id, su.id);
    assert_eq!(found.username, "ada");
    assert_eq!(found.email, "a@x.com");
}

#[test]
fn duplicate_email_signup_conflicts() {
    let mut store = Store::new();
    signup(&mut store, "a@x.com", "ada", "pw-1");
    let again = store.insert_user(
        InsertUser {
            first_name: "Eve".to_string(),
            last_name: "M".to_string(),
            username: "eve".to_string(),
            email: "a@x.com".to_string(),
            password: "pw-2".to_string(),
        },
        NOW + 5,
    );
    assert!(matches!(again, Err(AppError::Conflict)));
    assert_eq!(store.users.len(), 1);
}

#[test]
fn fresh_ids_are_distinct_uuid_texts() {
    let mut store = Store::new();
    let a = signup(&mut store, "a@x.com", "ada", "pw");
    let b = signup(&mut store, "b@x.com", "bob", "pw");
    assert_ne!(a.id, b.id);
    assert_eq!(a.id.len(), 36);
    assert_eq!(b.id.len(), 36);
}

#[test]
fn get_user_by_id_and_fetch_all_never_leak_digests() {
    let mut store = Store::new();
    let su = signup(&mut store, "a@x.com", "ada", "pw");
    let u = store.get_user_by_id(&su.id).unwrap();
    assert_eq!(u.email, "a@x.com");
    assert_eq!(u.account_status, AccountStatus::Active);
    assert_eq!(u.registration_date, NOW);
    let all = store.fetch_all_users();
    assert_eq!(all.len(), 1);
    assert_eq!(all[0].username, "ada");
    assert!(store.get_user_by_id("no-such-id").is_none());
}

#[test]
fn update_user_applies_only_present_fields() {
    let mut store = Store::new();
    let su = signup(&mut store, "a@x.com", "ada", "pw");
    let st = store
        .update_user(UpdateUser {
            id: su.id.clone(),
            first_name: None,
            last_name: None,
            username: None,
            password: None,
            email: None,
            about: Some("new bio".to_string()),
        })
        .unwrap();
    assert_eq!(st.text, "UPDATE users SET about = $1 WHERE id = $2;");
    let u = store.get_user_by_id(&su.id).unwrap();
    assert_eq!(u.about, "new bio");
    assert_eq!(u.email, "a@x.com");
    assert_eq!(u.username, "ada");
}

#[test]
fn update_user_rejects_empty_changeset_and_taken_email() {
    let mut store = Store::new();
    let su = signup(&mut store, "a@x.com", "ada", "pw");
    signup(&mut store, "b@x.com", "bob", "pw");
    let none = store.update_user(UpdateUser {
        id: su.id.clone(),
        first_name: None,
        last_name: None,
        username: None,
        password: None,
        email: None,
        about: None,
    });
    assert!(matches!(none, Err(AppError::NoFieldsToUpdate)));
    let taken = store.update_user(UpdateUser {
        id: su.id.clone(),
        first_name: None,
        last_name: None,
        username: None,
        password: None,
        email: Some("b@x.com".to_string()),
        about: None,
    });
    assert!(matches!(taken, Err(AppError::Conflict)));
}

#[test]
fn update_user_password_change_replaces_credential() {
    let mut store = Store::new();
    let su = signup(&mut store, "a@x.com", "ada", "old-pw");
    store
        .update_user(UpdateUser {
            id: su.id.clone(),
            first_name: None,
            last_name: None,
            username: None,
            password: Some("new-pw".to_string()),
            email: None,
            about: None,
        })
        .unwrap();
    let old = store.get_user_info_by_credentials(&LoginUser {
        email: "a@x.com".to_string(),
        password: "old-pw".to_string(),
    });
    assert!(old.is_none());
    let new = store.get_user_info_by_credentials(&LoginUser {
        email: "a@x.com".to_string(),
        password: "new-pw".to_string(),
    });
    assert!(new.is_some());
}

#[test]
fn login_issues_token_and_records_instant() {
    let mut store = Store::new();
    let su = signup(&mut store, "a@x.com", "ada", "pw");
    let (view, token) = login(
        &mut store,
        &LoginUser { email: "a@x.com".to_string(), password: "pw".to_string() },
        NOW + 100,
        60,
        SECRET,
    )
    .unwrap();
    assert_eq!(view.id, su.id);
    assert_eq!(auth_core::jwt::decode_token(&token, NOW + 100, SECRET).unwrap(), su.id);
    let u = store.get_user_by_id(&su.id).unwrap();
    assert_eq!(u.last_login_date, NOW + 100);
}

#[test]
fn login_with_wrong_password_is_unauthorized_without_token() {
    let mut store = Store::new();
    signup(&mut store, "a@x.com", "ada", "pw");
    let r = login(
        &mut store,
        &LoginUser { email: "a@x.com".to_string(), password: "nope".to_string() },
        NOW,
        60,
        SECRET,
    );
    assert!(matches!(r, Err(AppError::Unauthorized)));
}

#[test]
fn account_status_and_login_date_updates_count_rows() {
    let mut store = Store::new();
    let su = signup(&mut store, "a@x.com", "ada", "pw");
    assert_eq!(store.update_account_status("a@x.com", AccountStatus::Suspended), 1);
    assert_eq!(store.update_account_status("nobody@x.com", AccountStatus::Active), 0);
    assert_eq!(store.get_user_by_id(&su.id).unwrap().account_status, AccountStatus::Suspended);
    assert_eq!(store.update_last_login_date("a@x.com", NOW + 7), 1);
    assert_eq!(store.get_user_by_id(&su.id).unwrap().last_login_date, NOW + 7);
}

#[test]
fn delete_user_removes_exactly_the_named_record() {
    let mut store = Store::new();
    signup(&mut store, "a@x.com", "ada", "pw");
    signup(&mut store, "b@x.com", "bob", "pw");
    assert_eq!(store.delete_user("a@x.com"), 1);
    assert_eq!(store.users.len(), 1);
    assert!(!store.is_email_taken("a@x.com"));
    assert!(store.is_email_taken("b@x.com"));
    assert_eq!(store.delete_user("a@x.com"), 0);
}
