use auth_core::errors::AppError;
use auth_core::models::{AccountStatus, ArticleStatus, InsertArticle, InsertUser, UpdateArticle};
use auth_core::store::Store;

const NOW: u64 = 1_700_000_000;

fn signup(store: &mut Store, email: &str, username: &str) -> String {
    store
        .insert_user(
            InsertUser {
                first_name: "Ada".to_string(),
                last_name: "L".to_string(),
                username: username.to_string(),
                email: email.to_string(),
                password: "pw".to_string(),
            },
            NOW,
        )
        .unwrap()
        .id
}

fn new_article(owner: &str, title: &str, status: Option<ArticleStatus>) -> InsertArticle {
    InsertArticle {
        user_id: owner.to_string(),
        title: title.to_string(),
        content: format!("content of {}", title),
        status,
    }
}

#[test]
fn insert_article_requires_existing_active_account() {
    let mut store = Store::new();
    let owner = signup(&mut store, "a@x.com", "ada");

    let missing = store.insert_article(new_article("ghost", "t", None), NOW);
    assert!(matches!(missing, Err(AppError::NotFound)));

    store.update_account_status("a@x.com", AccountStatus::Suspended);
    let suspended = store.insert_article(new_article(&owner, "t", None), NOW);
    assert!(matches!(suspended, Err(AppError::Unauthorized)));

    store.update_account_status("a@x.com", AccountStatus::Active);
    let id = store.insert_article(new_article(&owner, "t", None), NOW + 1).unwrap();
    let art = store.get_article_by_id(&id).unwrap();
    assert_eq!(art.title, "t");
    assert_eq!(art.status, ArticleStatus::Draft);
    assert_eq!(art.creation_date, NOW + 1);
    assert_eq!(art.user_id, owner);
}

#[test]
fn update_article_applies_changes_and_guards() {
    let mut store = Store::new();
    let owner = signup(&mut store, "a@x.com", "ada");
    let id = store.insert_article(new_article(&owner, "old title", None), NOW).unwrap();

    let missing = store.update_article(UpdateArticle {
        id: "no-such-id".to_string(),
        title: Some("x".to_string()),
        content: None,
        status: None,
    });
    assert!(matches!(missing, Err(AppError::NotFound)));

    let empty = store.update_article(UpdateArticle {
        id: id.clone(),
        title: None,
        content: None,
        status: None,
    });
    assert!(matches!(empty, Err(AppError::NoFieldsToUpdate)));

    let st = store
        .update_article(UpdateArticle {
            id: id.clone(),
            title: Some("new title".to_string()),
            content: None,
            status: Some(ArticleStatus::Published),
        })
        .unwrap();
    assert_eq!(st.text, "UPDATE articles SET title = $1, status = $2 WHERE id = $3;");
    let art = store.get_article_by_id(&id).unwrap();
    assert_eq!(art.title, "new title");
    assert_eq!(art.status, ArticleStatus::Published);
    assert!(art.content.starts_with("content of"));
}

#[test]
fn delete_article_enforces_ownership_and_publication_policy() {
    let mut store = Store::new();
    let owner = signup(&mut store, "a@x.com", "ada");
    let other = signup(&mut store, "b@x.com", "bob");
    let draft = store.insert_article(new_article(&owner, "d", None), NOW).unwrap();
    let published = store
        .insert_article(new_article(&owner, "p", Some(ArticleStatus::Published)), NOW)
        .unwrap();

    let missing = store.delete_article("no-such-id", &owner);
    assert!(matches!(missing, Err(AppError::NotFound)));

    let not_owner = store.delete_article(&draft, &other);
    assert!(matches!(not_owner, Err(AppError::Unauthorized)));

    let published_guard = store.delete_article(&published, &owner);
    assert!(matches!(published_guard, Err(AppError::ValidationError)));

    store.delete_article(&draft, &owner).unwrap();
    assert!(store.get_article_by_id(&draft).is_none());
    assert!(store.get_article_by_id(&published).is_some());
}

#[test]
fn owner_listing_filters_by_owner_and_status() {
    let mut store = Store::new();
    let ada = signup(&mut store, "a@x.com", "ada");
    let bob = signup(&mut store, "b@x.com", "bob");
    store.insert_article(new_article(&ada, "a-draft", None), NOW).unwrap();
    store
        .insert_article(new_article(&ada, "a-pub", Some(ArticleStatus::Published)), NOW + 1)
        .unwrap();
    store
        .insert_article(new_article(&bob, "b-pub", Some(ArticleStatus::Published)), NOW + 2)
        .unwrap();

    let all_of_ada = store.get_articles_by_user_id(&ada, None);
    assert_eq!(all_of_ada.len(), 2);
    assert!(all_of_ada.iter().all(|r| r.user_id == ada && r.author == "ada"));

    let published_of_ada = store.get_articles_by_user_id(&ada, Some(ArticleStatus::Published));
    assert_eq!(published_of_ada.len(), 1);
    assert_eq!(published_of_ada[0].title, "a-pub");

    let nobody = store.get_articles_by_user_id("ghost", None);
    assert!(nobody.is_empty());
}

#[test]
fn latest_articles_come_newest_first_and_published_only() {
    let mut store = Store::new();
    let ada = signup(&mut store, "a@x.com", "ada");
    for (title, date) in [("one", 100u64), ("three", 300), ("two", 200)] {
        store
            .insert_article(new_article(&ada, title, Some(ArticleStatus::Published)), date)
            .unwrap();
    }
    store.insert_article(new_article(&ada, "hidden-draft", None), 400).unwrap();

    let latest = store.get_latest_articles();
    let titles: Vec<&str> = latest.iter().map(|r| r.title.as_str()).collect();
    assert_eq!(titles, vec!["three", "two", "one"]);
    assert!(latest.iter().all(|r| r.status == ArticleStatus::Published));
}

#[test]
fn all_articles_come_oldest_first() {
    let mut store = Store::new();
    let ada = signup(&mut store, "a@x.com", "ada");
    for (title, date) in [("b", 200u64), ("a", 100), ("c", 300)] {
        store
            .insert_article(new_article(&ada, title, Some(ArticleStatus::Published)), date)
            .unwrap();
    }
    let all = store.get_all_articles();
    let titles: Vec<&str> = all.iter().map(|r| r.title.as_str()).collect();
    assert_eq!(titles, vec!["a", "b", "c"]);
}

#[test]
fn latest_for_user_caps_at_seven_any_status() {
    let mut store = Store::new();
    let ada = signup(&mut store, "a@x.com", "ada");
    for d in 1u64..=8 {
        store
            .insert_article(new_article(&ada, &format!("t{}", d), None), d)
            .unwrap();
    }
    let latest = store.get_latest_articles_by_user_id(&ada);
    assert_eq!(latest.len(), 7);
    let dates: Vec<u64> = latest.iter().map(|r| r.creation_date).collect();
    assert_eq!(dates, vec![8, 7, 6, 5, 4, 3, 2]);
}

#[test]
fn single_article_join_carries_author_username() {
    let mut store = Store::new();
    let ada = signup(&mut store, "a@x.com", "ada");
    let id = store.insert_article(new_article(&ada, "t", None), NOW).unwrap();
    let ra = store.get_article(&id).unwrap();
    assert_eq!(ra.author, "ada");
    assert_eq!(ra.user_id, ada);
    assert!(store.get_article("no-such-id").is_none());
}
