use vstd::prelude::*;
use vstd::string::StringExecFns;

use crate::errors::AppError;
use crate::jwt::{create_token, jwt_of};
use crate::models::{AccountStatus, InsertUser, LoginUser, SavedUser, UpdateUser, User};
use crate::password::{bcrypt_matches, hash_password, verify_password};
use crate::update::{
    build_user_update, prepare_user_update, spec_user_update_params, spec_user_update_text,
    user_field_count, UpdateStatement,
};

verus! {

/// A stored account row: the public record together with its credential
/// digest.  The digest never leaves the store through any query.
pub struct UserRecord {
    pub user: User,
    pub password: String,
}

/// The trimmed public-safe view of a stored account, as signup and login
/// return it.
pub open spec fn spec_saved_view(rec: UserRecord) -> SavedUser {
    SavedUser {
        id: rec.user.id,
        username: rec.user.username,
        email: rec.user.email,
        last_login_date: rec.user.last_login_date,
    }
}

/// The in-memory relational store of the service: account rows and article
/// rows reachable only through parameterized operations.
pub struct Store {
    pub users: Vec<UserRecord>,
    pub articles: Vec<crate::models::Article>,
}

impl Store {
    /// Well-formedness of the account table: ids are nonempty and unique,
    /// and email uniqueness is enforced at write time.
    pub open spec fn users_wf(self) -> bool {
        &&& forall|i: int|
            0 <= i < self.users@.len() ==> (#[trigger] self.users@[i]).user.id@.len() > 0
        &&& forall|i: int, j: int|
            0 <= i < j < self.users@.len() ==> (#[trigger] self.users@[i]).user.id@ != (
            #[trigger] self.users@[j]).user.id@ && self.users@[i].user.email@
                != self.users@[j].user.email@
    }

    /// Well-formedness of the article table: ids are unique.
    pub open spec fn articles_wf(self) -> bool {
        forall|i: int, j: int|
            0 <= i < j < self.articles@.len() ==> (#[trigger] self.articles@[i]).id@ != (
            #[trigger] self.articles@[j]).id@
    }

    pub open spec fn wf(self) -> bool {
        self.users_wf() && self.articles_wf()
    }

    /// Whether some stored account already uses this email.
    pub open spec fn spec_email_taken(self, email: Seq<char>) -> bool {
        exists|i: int|
            0 <= i < self.users@.len() && (#[trigger] self.users@[i]).user.email@ == email
    }

    /// Whether some stored account has this id.
    pub open spec fn spec_user_id_exists(self, id: Seq<char>) -> bool {
        exists|i: int| 0 <= i < self.users@.len() && (#[trigger] self.users@[i]).user.id@ == id
    }

    /// Whether this email names a stored account whose digest verifies
    /// against this password.
    pub open spec fn spec_credentials_match(self, email: Seq<char>, password: Seq<char>) -> bool {
        exists|i: int|
            0 <= i < self.users@.len() && (#[trigger] self.users@[i]).user.email@ == email
                && bcrypt_matches(password, self.users@[i].password@)
    }

    /// An empty store.
    pub fn new() -> (r: Store)
        ensures
            r.wf(),
            r.users@.len() == 0,
            r.articles@.len() == 0,
    {
        Store { users: Vec::new(), articles: Vec::new() }
    }

    /// Checks whether an account with this email exists.
    pub fn is_email_taken(&self, email: &str) -> (r: bool)
        ensures
            r == self.spec_email_taken(email@),
    {
        let n = self.users.len();
        let mut i: usize = 0;
        while i < n
            invariant
                n == self.users@.len(),
                i <= n,
                forall|k: int| 0 <= k < i ==> (#[trigger] self.users@[k]).user.email@ != email@,
            decreases n - i,
        {
            if str_eq(self.users[i].user.email.as_str(), email) {
                return true;
            }
            i = i + 1;
        }
        false
    }

    fn find_user_index_by_id(&self, id: &str) -> (r: Option<usize>)
        ensures
            r matches Some(i) ==> i < self.users@.len() && self.users@[i as int].user.id@ == id@,
            r is None ==> forall|k: int|
                0 <= k < self.users@.len() ==> (#[trigger] self.users@[k]).user.id@ != id@,
    {
        let n = self.users.len();
        let mut i: usize = 0;
        while i < n
            invariant
                n == self.users@.len(),
                i <= n,
                forall|k: int| 0 <= k < i ==> (#[trigger] self.users@[k]).user.id@ != id@,
            decreases n - i,
        {
            if str_eq(self.users[i].user.id.as_str(), id) {
                return Some(i);
            }
            i = i + 1;
        }
        None
    }

    fn find_user_index_by_email(&self, email: &str) -> (r: Option<usize>)
        ensures
            r matches Some(i) ==> i < self.users@.len() && self.users@[i as int].user.email@
                == email@,
            r is None ==> forall|k: int|
                0 <= k < self.users@.len() ==> (#[trigger] self.users@[k]).user.email@ != email@,
    {
        let n = self.users.len();
        let mut i: usize = 0;
        while i < n
            invariant
                n == self.users@.len(),
                i <= n,
                forall|k: int| 0 <= k < i ==> (#[trigger] self.users@[k]).user.email@ != email@,
            decreases n - i,
        {
            if str_eq(self.users[i].user.email.as_str(), email) {
                return Some(i);
            }
            i = i + 1;
        }
        None
    }

    /// Returns the public record of the account with this id, if any.
    pub fn get_user_by_id(&self, user_id: &str) -> (r: Option<User>)
        ensures
            r is Some <==> self.spec_user_id_exists(user_id@),
            r matches Some(u) ==> exists|i: int|
                0 <= i < self.users@.len() && (#[trigger] self.users@[i]).user.id@ == user_id@ && u
                    == self.users@[i].user,
    {
        match self.find_user_index_by_id(user_id) {
            Some(i) => Some(self.users[i].user.duplicate()),
            None => None,
        }
    }

    /// Returns the public records of every stored account, in store order.
    /// Credential digests stay behind.
    pub fn fetch_all_users(&self) -> (r: Vec<User>)
        ensures
            r@.len() == self.users@.len(),
            forall|i: int| 0 <= i < r@.len() ==> r@[i] == (#[trigger] self.users@[i]).user,
    {
        let n = self.users.len();
        let mut out: Vec<User> = Vec::new();
        let mut i: usize = 0;
        while i < n
            invariant
                n == self.users@.len(),
                i <= n,
                out@.len() == i,
                forall|k: int| 0 <= k < i ==> out@[k] == (#[trigger] self.users@[k]).user,
            decreases n - i,
        {
            out.push(self.users[i].user.duplicate());
            i = i + 1;
        }
        out
    }

    /// Appends a signup record built from already-obtained collaborator
    /// results: the credential digest and the fresh id.  Deterministic in
    /// its arguments: it succeeds exactly when the email and the id are
    /// unused and the id is nonempty.
    pub fn insert_user_record(
        &mut self,
        nu: InsertUser,
        digest: String,
        user_id: String,
        now: u64,
    ) -> (r: Result<SavedUser, AppError>)
        requires
            old(self).wf(),
        ensures
            final(self).wf(),
            final(self).articles@ == old(self).articles@,
            r is Err ==> *final(self) == *old(self),
            old(self).spec_email_taken(nu.email@) <==> r matches Err(AppError::Conflict),
            !old(self).spec_email_taken(nu.email@) && (old(self).spec_user_id_exists(user_id@)
                || user_id@.len() == 0) <==> r matches Err(AppError::InternalError),
            r is Ok <==> !old(self).spec_email_taken(nu.email@) && !old(self).spec_user_id_exists(
                user_id@,
            ) && user_id@.len() > 0,
            r matches Ok(su) ==> ({
                let rec = final(self).users@.last();
                &&& final(self).users@ == old(self).users@.push(rec)
                &&& rec.user.id == user_id
                &&& rec.user.first_name == nu.first_name
                &&& rec.user.last_name == nu.last_name
                &&& rec.user.username == nu.username
                &&& rec.user.email == nu.email
                &&& rec.user.about@ == Seq::<char>::empty()
                &&& rec.user.account_status == AccountStatus::Active
                &&& rec.user.registration_date == now
                &&& rec.user.last_login_date == now
                &&& rec.password == digest
                &&& su == spec_saved_view(rec)
            }),
    {
        if self.is_email_taken(nu.email.as_str()) {
            return Err(AppError::Conflict);
        }
        if user_id.as_str().is_empty() {
            return Err(AppError::InternalError);
        }
        if let Some(_) = self.find_user_index_by_id(user_id.as_str()) {
            return Err(AppError::InternalError);
        }
        let saved = SavedUser {
            id: user_id.clone(),
            username: nu.username.clone(),
            email: nu.email.clone(),
            last_login_date: now,
        };
        let rec = UserRecord {
            user: User {
                id: user_id,
                first_name: nu.first_name,
                last_name: nu.last_name,
                username: nu.username,
                email: nu.email,
                about: String::new(),
                account_status: AccountStatus::Active,
                registration_date: now,
                last_login_date: now,
            },
            password: digest,
        };
        self.users.push(rec);
        proof {
            assert forall|i: int, j: int|
                0 <= i < j < self.users@.len() implies (#[trigger] self.users@[i]).user.id@ != (
            #[trigger] self.users@[j]).user.id@ && self.users@[i].user.email@
                != self.users@[j].user.email@ by {
                if j == self.users@.len() - 1 {
                    assert(self.users@[i] == old(self).users@[i]);
                }
            }
        }
        Ok(saved)
    }

    /// Signs an account up: rejects a taken email, hashes the credential,
    /// draws a fresh id and appends the record.  The returned view carries
    /// no credential digest.
    pub fn insert_user(&mut self, nu: InsertUser, now: u64) -> (r: Result<SavedUser, AppError>)
        requires
            old(self).wf(),
        ensures
            final(self).wf(),
            final(self).articles@ == old(self).articles@,
            r is Err ==> *final(self) == *old(self),
            old(self).spec_email_taken(nu.email@) <==> r matches Err(AppError::Conflict),
            r matches Err(e) ==> e == AppError::Conflict || e == AppError::InternalError,
            r matches Ok(su) ==> ({
                let rec = final(self).users@.last();
                &&& !old(self).spec_email_taken(nu.email@)
                &&& final(self).users@ == old(self).users@.push(rec)
                &&& rec.user.first_name == nu.first_name
                &&& rec.user.last_name == nu.last_name
                &&& rec.user.username == nu.username
                &&& rec.user.email == nu.email
                &&& rec.user.about@ == Seq::<char>::empty()
                &&& rec.user.account_status == AccountStatus::Active
                &&& rec.user.registration_date == now
                &&& rec.user.last_login_date == now
                &&& rec.user.id@.len() > 0
                &&& !old(self).spec_user_id_exists(rec.user.id@)
                &&& bcrypt_matches(nu.password@, rec.password@)
                &&& su == spec_saved_view(rec)
            }),
    {
        if self.is_email_taken(nu.email.as_str()) {
            return Err(AppError::Conflict);
        }
        let digest = match hash_password(nu.password.as_str()) {
            Ok(d) => d,
            Err(e) => {
                return Err(e);
            },
        };
        let user_id = fresh_uuid();
        self.insert_user_record(nu, digest, user_id, now)
    }

    /// Looks an account up by email and verifies the password against its
    /// stored digest.  Returns the trimmed view on success and `None` both
    /// for an unknown email and for a wrong password, with no distinguishing
    /// error.
    pub fn get_user_info_by_credentials(&self, login_user: &LoginUser) -> (r: Option<SavedUser>)
        requires
            self.wf(),
        ensures
            r is Some <==> self.spec_credentials_match(login_user.email@, login_user.password@),
            r matches Some(su) ==> exists|i: int|
                0 <= i < self.users@.len() && (#[trigger] self.users@[i]).user.email@
                    == login_user.email@ && bcrypt_matches(
                    login_user.password@,
                    self.users@[i].password@,
                ) && su == spec_saved_view(self.users@[i]),
    {
        match self.find_user_index_by_email(login_user.email.as_str()) {
            Some(i) => {
                let rec = &self.users[i];
                if verify_password(login_user.password.as_str(), rec.password.as_str()) {
                    Some(
                        SavedUser {
                            id: rec.user.id.clone(),
                            username: rec.user.username.clone(),
                            email: rec.user.email.clone(),
                            last_login_date: rec.user.last_login_date,
                        },
                    )
                } else {
                    proof {
                        assert forall|j: int|
                            0 <= j < self.users@.len() && (#[trigger] self.users@[j]).user.email@
                                == login_user.email@ implies j == i by {}
                    }
                    None
                }
            },
            None => None,
        }
    }

    /// Applies a prepared (already hashed) change-set to the account table:
    /// the record whose id matches gets each present field overwritten and
    /// every other field kept; all other records stay untouched.
    pub open spec fn spec_apply_user_update(users: Seq<UserRecord>, p: UpdateUser) -> Seq<
        UserRecord,
    > {
        Seq::new(
            users.len(),
            |i: int|
                if users[i].user.id@ == p.id@ {
                    spec_apply_user_change(users[i], p)
                } else {
                    users[i]
                },
        )
    }

    /// Updates the account named by the change-set's id: a present email is
    /// first checked for uniqueness, a present password enters only as its
    /// digest, and the parameterized statement that was built is returned.
    /// A change-set whose id matches no record changes nothing and still
    /// returns the statement, as a store would report zero affected rows.
    pub fn update_user(&mut self, u: UpdateUser) -> (r: Result<UpdateStatement, AppError>)
        requires
            old(self).wf(),
        ensures
            final(self).wf(),
            final(self).articles@ == old(self).articles@,
            r is Err ==> *final(self) == *old(self),
            user_field_count(u) == 0 <==> r matches Err(AppError::NoFieldsToUpdate),
            (match u.email {
                Option::Some(em) => old(self).spec_email_taken(em@),
                Option::None => false,
            }) <==> r matches Err(AppError::Conflict),
            r matches Err(e) ==> e == AppError::NoFieldsToUpdate || e == AppError::Conflict || e
                == AppError::InternalError,
            r matches Err(AppError::InternalError) ==> u.password is Some,
            r matches Ok(st) ==> st.text@ == spec_user_update_text(u),
            r matches Ok(st) ==> exists|p: UpdateUser|
                {
                    &&& #[trigger] user_field_count(p) == user_field_count(u)
                    &&& p.id == u.id
                    &&& p.first_name == u.first_name
                    &&& p.last_name == u.last_name
                    &&& p.username == u.username
                    &&& p.email == u.email
                    &&& p.about == u.about
                    &&& match (u.password, p.password) {
                        (Option::None, Option::None) => true,
                        (Option::Some(pw), Option::Some(d)) => bcrypt_matches(pw@, d@),
                        _ => false,
                    }
                    &&& st.text@ == spec_user_update_text(p)
                    &&& st.params.deep_view() == spec_user_update_params(p)
                    &&& final(self).users@ == Store::spec_apply_user_update(old(self).users@, p)
                },
    {
        let has_any = u.first_name.is_some() || u.last_name.is_some() || u.email.is_some()
            || u.about.is_some() || u.username.is_some() || u.password.is_some();
        if !has_any {
            return Err(AppError::NoFieldsToUpdate);
        }
        if let Option::Some(em) = &u.email {
            if self.is_email_taken(em.as_str()) {
                return Err(AppError::Conflict);
            }
        }
        let p = match prepare_user_update(u) {
            Ok(p) => p,
            Err(e) => {
                return Err(e);
            },
        };
        let st = match build_user_update(&p) {
            Ok(st) => st,
            Err(e) => {
                proof {
                    assert(false);
                }
                return Err(e);
            },
        };
        let ghost gp = p;
        proof {
            crate::update::lemma_user_text_value_independent(gp, u);
        }
        match self.find_user_index_by_id(p.id.as_str()) {
            Some(i) => {
                let rec = self.users.remove(i);
                let updated = apply_user_change(rec, p);
                self.users.insert(i, updated);
                proof {
                    assert forall|k: int|
                        0 <= k < self.users@.len() implies #[trigger] self.users@[k] == (
                    if old(self).users@[k].user.id@ == gp.id@ {
                        spec_apply_user_change(old(self).users@[k], gp)
                    } else {
                        old(self).users@[k]
                    }) by {
                        if k != i {
                            assert(self.users@[k] == old(self).users@[k]);
                            assert(old(self).users@[k].user.id@ != gp.id@);
                        }
                    }
                    assert(self.users@ =~= Store::spec_apply_user_update(old(self).users@, gp));
                    assert forall|a: int, b: int|
                        0 <= a < b < self.users@.len() implies (#[trigger] self.users@[a]).user.id@
                        != (#[trigger] self.users@[b]).user.id@ && self.users@[a].user.email@
                        != self.users@[b].user.email@ by {
                        assert(old(self).users@[a].user.id@ != old(self).users@[b].user.id@);
                        assert(old(self).users@[a].user.email@ != old(self).users@[b].user.email@);
                    }
                }
                Ok(st)
            },
            None => {
                proof {
                    assert(self.users@ =~= Store::spec_apply_user_update(old(self).users@, gp));
                }
                Ok(st)
            },
        }
    }

    /// Sets the account status of the record with this email, if any, and
    /// reports how many records were affected.
    pub fn update_account_status(&mut self, email: &str, status: AccountStatus) -> (r: u64)
        requires
            old(self).wf(),
        ensures
            final(self).wf(),
            final(self).articles@ == old(self).articles@,
            final(self).users@.len() == old(self).users@.len(),
            forall|i: int|
                0 <= i < old(self).users@.len() ==> #[trigger] final(self).users@[i] == (
                if old(self).users@[i].user.email@ == email@ {
                    UserRecord {
                        user: User {
                            account_status: status,
                            ..old(self).users@[i].user
                        },
                        ..old(self).users@[i]
                    }
                } else {
                    old(self).users@[i]
                }),
            r == 1 <==> old(self).spec_email_taken(email@),
            r == 0 || r == 1,
    {
        match self.find_user_index_by_email(email) {
            Some(i) => {
                let rec = self.users.remove(i);
                let UserRecord { user, password } = rec;
                let updated = UserRecord {
                    user: User { account_status: status, ..user },
                    password,
                };
                self.users.insert(i, updated);
                proof {
                    assert forall|k: int|
                        0 <= k < old(self).users@.len() implies #[trigger] self.users@[k] == (
                    if old(self).users@[k].user.email@ == email@ {
                        UserRecord {
                            user: User {
                                account_status: status,
                                ..old(self).users@[k].user
                            },
                            ..old(self).users@[k]
                        }
                    } else {
                        old(self).users@[k]
                    }) by {
                        if k != i {
                            assert(self.users@[k] == old(self).users@[k]);
                        }
                    }
                }
                1
            },
            None => 0,
        }
    }

    /// Sets the last login instant of the record with this email, if any,
    /// and reports how many records were affected.
    pub fn update_last_login_date(&mut self, email: &str, now: u64) -> (r: u64)
        requires
            old(self).wf(),
        ensures
            final(self).wf(),
            final(self).articles@ == old(self).articles@,
            final(self).users@.len() == old(self).users@.len(),
            forall|i: int|
                0 <= i < old(self).users@.len() ==> #[trigger] final(self).users@[i] == (
                if old(self).users@[i].user.email@ == email@ {
                    UserRecord {
                        user: User {
                            last_login_date: now,
                            ..old(self).users@[i].user
                        },
                        ..old(self).users@[i]
                    }
                } else {
                    old(self).users@[i]
                }),
            r == 1 <==> old(self).spec_email_taken(email@),
            r == 0 || r == 1,
    {
        match self.find_user_index_by_email(email) {
            Some(i) => {
                let rec = self.users.remove(i);
                let UserRecord { user, password } = rec;
                let updated = UserRecord {
                    user: User { last_login_date: now, ..user },
                    password,
                };
                self.users.insert(i, updated);
                proof {
                    assert forall|k: int|
                        0 <= k < old(self).users@.len() implies #[trigger] self.users@[k] == (
                    if old(self).users@[k].user.email@ == email@ {
                        UserRecord {
                            user: User {
                                last_login_date: now,
                                ..old(self).users@[k].user
                            },
                            ..old(self).users@[k]
                        }
                    } else {
                        old(self).users@[k]
                    }) by {
                        if k != i {
                            assert(self.users@[k] == old(self).users@[k]);
                        }
                    }
                }
                1
            },
            None => 0,
        }
    }

    /// Removes the record with this email, if any, and reports how many
    /// records were removed.
    pub fn delete_user(&mut self, email: &str) -> (r: u64)
        requires
            old(self).wf(),
        ensures
            final(self).wf(),
            final(self).articles@ == old(self).articles@,
            !old(self).spec_email_taken(email@) ==> *final(self) == *old(self) && r == 0,
            old(self).spec_email_taken(email@) ==> r == 1 && exists|i: int|
                0 <= i < old(self).users@.len() && (#[trigger] old(self).users@[i]).user.email@
                    == email@ && final(self).users@ == old(self).users@.remove(i),
            r == 0 || r == 1,
    {
        match self.find_user_index_by_email(email) {
            Some(i) => {
                self.users.remove(i);
                proof {
                    assert forall|a: int, b: int|
                        0 <= a < b < self.users@.len() implies (#[trigger] self.users@[a]).user.id@
                        != (#[trigger] self.users@[b]).user.id@ && self.users@[a].user.email@
                        != self.users@[b].user.email@ by {
                        let oa: int = if a < i { a } else { a + 1 };
                        let ob: int = if b < i { b } else { b + 1 };
                        assert(self.users@[a] == old(self).users@[oa]);
                        assert(self.users@[b] == old(self).users@[ob]);
                    }
                }
                1
            },
            None => 0,
        }
    }
}

/// The value a field holds after an optional overwrite.
pub open spec fn spec_apply_field(cur: String, upd: Option<String>) -> String {
    match upd {
        Option::Some(v) => v,
        Option::None => cur,
    }
}

/// One account record after a prepared change-set is applied to it: present
/// fields overwritten, the id and every absent field kept, the credential
/// digest replaced only when a password entered the change-set.
pub open spec fn spec_apply_user_change(rec: UserRecord, p: UpdateUser) -> UserRecord {
    UserRecord {
        user: User {
            id: rec.user.id,
            first_name: spec_apply_field(rec.user.first_name, p.first_name),
            last_name: spec_apply_field(rec.user.last_name, p.last_name),
            username: spec_apply_field(rec.user.username, p.username),
            email: spec_apply_field(rec.user.email, p.email),
            about: spec_apply_field(rec.user.about, p.about),
            account_status: rec.user.account_status,
            registration_date: rec.user.registration_date,
            last_login_date: rec.user.last_login_date,
        },
        password: spec_apply_field(rec.password, p.password),
    }
}

pub(crate) fn apply_field(cur: String, upd: Option<String>) -> (r: String)
    ensures
        r == spec_apply_field(cur, upd),
{
    match upd {
        Option::Some(v) => v,
        Option::None => cur,
    }
}

fn apply_user_change(rec: UserRecord, p: UpdateUser) -> (r: UserRecord)
    ensures
        r == spec_apply_user_change(rec, p),
{
    let UserRecord { user, password } = rec;
    let User {
        id,
        first_name,
        last_name,
        username,
        email,
        about,
        account_status,
        registration_date,
        last_login_date,
    } = user;
    let UpdateUser {
        id: _,
        first_name: pf,
        last_name: pl,
        username: pu,
        password: pp,
        email: pe,
        about: pa,
    } = p;
    UserRecord {
        user: User {
            id,
            first_name: apply_field(first_name, pf),
            last_name: apply_field(last_name, pl),
            username: apply_field(username, pu),
            email: apply_field(email, pe),
            about: apply_field(about, pa),
            account_status,
            registration_date,
            last_login_date,
        },
        password: apply_field(password, pp),
    }
}

/// Compares two text values by content.
pub fn str_eq(a: &str, b: &str) -> (r: bool)
    ensures
        r == (a@ == b@),
{
    let sa = String::from_str(a);
    let sb = String::from_str(b);
    sa == sb
}

/// Relies on uuid::Uuid::new_v4: a freshly drawn random identifier in its
/// 36-character hyphenated text form.  Nothing is assumed about which value
/// comes back.
#[verifier::external_body]
pub(crate) fn fresh_uuid() -> (r: String)
    ensures
        r@.len() == 36,
{
    uuid::Uuid::new_v4().hyphenated().to_string()
}

/// Authenticates by email and password and, on success, issues an identity
/// token for the account and records the login instant.  Success is owed
/// exactly to matching credentials; a failed login reports only
/// `Unauthorized`, whichever part failed, and changes nothing.
pub fn login(store: &mut Store, login_user: &LoginUser, now: u64, ttl_minutes: u64, secret: &[u8]) -> (r: Result<(SavedUser, String), AppError>)
    requires
        old(store).wf(),
        now + ttl_minutes * 60 <= u64::MAX,
    ensures
        final(store).wf(),
        final(store).articles@ == old(store).articles@,
        r is Ok <==> old(store).spec_credentials_match(login_user.email@, login_user.password@),
        r matches Err(e) ==> e == AppError::Unauthorized && *final(store) == *old(store),
        r matches Ok(out) ==> ({
            &&& exists|i: int|
                0 <= i < old(store).users@.len() && (#[trigger] old(store).users@[i]).user.email@
                    == login_user.email@ && bcrypt_matches(
                    login_user.password@,
                    old(store).users@[i].password@,
                ) && out.0 == spec_saved_view(old(store).users@[i])
            &&& out.1@ == jwt_of(out.0.id@, now, (now + ttl_minutes * 60) as u64, secret@)
            &&& final(store).users@.len() == old(store).users@.len()
            &&& forall|i: int|
                0 <= i < old(store).users@.len() ==> #[trigger] final(store).users@[i] == (
                if old(store).users@[i].user.email@ == login_user.email@ {
                    UserRecord {
                        user: User {
                            last_login_date: now,
                            ..old(store).users@[i].user
                        },
                        ..old(store).users@[i]
                    }
                } else {
                    old(store).users@[i]
                })
        }),
{
    let su = match store.get_user_info_by_credentials(login_user) {
        Some(su) => su,
        None => {
            return Err(AppError::Unauthorized);
        },
    };
    proof {
        let wi = choose|i: int|
            0 <= i < store.users@.len() && (#[trigger] store.users@[i]).user.email@
                == login_user.email@ && bcrypt_matches(
                login_user.password@,
                store.users@[i].password@,
            ) && su == spec_saved_view(store.users@[i]);
        assert(store.users@[wi].user.id@.len() > 0);
    }
    let token = match create_token(su.id.as_str(), ttl_minutes, now, secret) {
        Ok(t) => t,
        Err(e) => {
            proof {
                assert(false);
            }
            return Err(e);
        },
    };
    store.update_last_login_date(su.email.as_str(), now);
    Ok((su, token))
}

} // verus!
