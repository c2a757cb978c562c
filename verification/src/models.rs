use vstd::prelude::*;

verus! {

/// Lifecycle state of an account.  Only active accounts may create content.
#[derive(Clone, Copy, Debug, PartialEq, Eq, Structural)]
pub enum AccountStatus {
    Active,
    Suspended,
}

/// Lifecycle state of an article.  A published article cannot be deleted.
#[derive(Clone, Copy, Debug, PartialEq, Eq, Structural)]
pub enum ArticleStatus {
    Draft,
    Published,
}

/// The text under which an article status is stored and bound into update
/// statements.
pub open spec fn status_chars(s: ArticleStatus) -> Seq<char> {
    match s {
        ArticleStatus::Draft => "draft"@,
        ArticleStatus::Published => "published"@,
    }
}

impl ArticleStatus {
    /// The stored text form of this status.
    pub fn as_str(&self) -> (r: &'static str)
        ensures
            r@ == status_chars(*self),
    {
        match self {
            ArticleStatus::Draft => "draft",
            ArticleStatus::Published => "published",
        }
    }
}

/// A full account record as callers see it: profile fields and status, never
/// the credential digest.
#[derive(Debug)]
pub struct User {
    pub id: String,
    pub first_name: String,
    pub last_name: String,
    pub username: String,
    pub email: String,
    pub about: String,
    pub account_status: AccountStatus,
    pub registration_date: u64,
    pub last_login_date: u64,
}

impl User {
    /// A field-for-field copy of this record.
    pub fn duplicate(&self) -> (r: User)
        ensures
            r == *self,
    {
        User {
            id: self.id.clone(),
            first_name: self.first_name.clone(),
            last_name: self.last_name.clone(),
            username: self.username.clone(),
            email: self.email.clone(),
            about: self.about.clone(),
            account_status: self.account_status,
            registration_date: self.registration_date,
            last_login_date: self.last_login_date,
        }
    }
}

/// The payload of a signup request.
#[derive(Debug)]
pub struct InsertUser {
    pub first_name: String,
    pub last_name: String,
    pub username: String,
    pub email: String,
    pub password: String,
}

/// The payload of a login request.
#[derive(Debug)]
pub struct LoginUser {
    pub email: String,
    pub password: String,
}

/// The trimmed public-safe identity view returned from signup and login.
/// It never carries the credential digest.
#[derive(Debug)]
pub struct SavedUser {
    pub id: String,
    pub username: String,
    pub email: String,
    pub last_login_date: u64,
}

/// A sparse change-set for an account: a required id and optional new
/// values, where an absent field means "leave unchanged".
#[derive(Debug)]
pub struct UpdateUser {
    pub id: String,
    pub first_name: Option<String>,
    pub last_name: Option<String>,
    pub username: Option<String>,
    pub password: Option<String>,
    pub email: Option<String>,
    pub about: Option<String>,
}

/// An article record.  The owner is immutable after creation.
#[derive(Debug)]
pub struct Article {
    pub id: String,
    pub user_id: String,
    pub title: String,
    pub content: String,
    pub status: ArticleStatus,
    pub creation_date: u64,
}

impl Article {
    /// A field-for-field copy of this record.
    pub fn duplicate(&self) -> (r: Article)
        ensures
            r == *self,
    {
        Article {
            id: self.id.clone(),
            user_id: self.user_id.clone(),
            title: self.title.clone(),
            content: self.content.clone(),
            status: self.status,
            creation_date: self.creation_date,
        }
    }
}

/// The payload of an article creation request.  An absent status means the
/// article starts as a draft.
#[derive(Debug)]
pub struct InsertArticle {
    pub user_id: String,
    pub title: String,
    pub content: String,
    pub status: Option<ArticleStatus>,
}

/// A direct status change request for one article.
#[derive(Debug)]
pub struct UpdateArticleStatus {
    pub id: String,
    pub status: ArticleStatus,
}

/// A sparse change-set for an article: a required id and optional new
/// values, where an absent field means "leave unchanged".
#[derive(Debug)]
pub struct UpdateArticle {
    pub id: String,
    pub title: Option<String>,
    pub content: Option<String>,
    pub status: Option<ArticleStatus>,
}

/// An article joined with its author's username, as listings return it.
#[derive(Debug)]
pub struct ReturnArticle {
    pub id: String,
    pub author: String,
    pub user_id: String,
    pub title: String,
    pub content: String,
    pub status: ArticleStatus,
    pub creation_date: u64,
}

impl ReturnArticle {
    /// A field-for-field copy of this record.
    pub fn duplicate(&self) -> (r: ReturnArticle)
        ensures
            r == *self,
    {
        ReturnArticle {
            id: self.id.clone(),
            author: self.author.clone(),
            user_id: self.user_id.clone(),
            title: self.title.clone(),
            content: self.content.clone(),
            status: self.status,
            creation_date: self.creation_date,
        }
    }
}

} // verus!
