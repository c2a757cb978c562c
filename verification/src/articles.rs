use vstd::multiset::Multiset;
use vstd::prelude::*;

use crate::errors::AppError;
use crate::models::{
    AccountStatus, Article, ArticleStatus, InsertArticle, ReturnArticle, UpdateArticle,
};
use crate::store::{apply_field, fresh_uuid, spec_apply_field, str_eq, Store};
use crate::update::{
    article_field_count, build_article_update, spec_article_update_params,
    spec_article_update_text, UpdateStatement,
};

verus! {

/// An article joined with its author's username, as a listing row.
pub open spec fn spec_return_view(a: Article, author: String) -> ReturnArticle {
    ReturnArticle {
        id: a.id,
        author: author,
        user_id: a.user_id,
        title: a.title,
        content: a.content,
        status: a.status,
        creation_date: a.creation_date,
    }
}

fn make_return(a: &Article, author: &String) -> (r: ReturnArticle)
    ensures
        r == spec_return_view(*a, *author),
{
    ReturnArticle {
        id: a.id.clone(),
        author: author.clone(),
        user_id: a.user_id.clone(),
        title: a.title.clone(),
        content: a.content.clone(),
        status: a.status,
        creation_date: a.creation_date,
    }
}

/// Whether an article belongs to this owner and passes this status filter;
/// an absent filter admits every status.
pub open spec fn spec_article_matches(a: Article, owner: Seq<char>, f: Option<
    ArticleStatus,
>) -> bool {
    a.user_id@ == owner && (match f {
        Option::Some(s) => a.status == s,
        Option::None => true,
    })
}

/// The listing rows for one owner, in store order: each article of that
/// owner that passes the filter, joined with the owner's username.
pub open spec fn spec_owner_listing(
    arts: Seq<Article>,
    owner: Seq<char>,
    f: Option<ArticleStatus>,
    author: String,
) -> Seq<ReturnArticle>
    decreases arts.len(),
{
    if arts.len() == 0 {
        Seq::empty()
    } else {
        let rest = spec_owner_listing(arts.drop_first(), owner, f, author);
        if spec_article_matches(arts.first(), owner, f) {
            seq![spec_return_view(arts.first(), author)] + rest
        } else {
            rest
        }
    }
}

/// One article after a change-set is applied to it: present fields
/// overwritten, the id, owner and creation instant kept.
pub open spec fn spec_apply_article_change(a: Article, u: UpdateArticle) -> Article {
    Article {
        id: a.id,
        user_id: a.user_id,
        title: spec_apply_field(a.title, u.title),
        content: spec_apply_field(a.content, u.content),
        status: match u.status {
            Option::Some(s) => s,
            Option::None => a.status,
        },
        creation_date: a.creation_date,
    }
}

fn apply_article_change(a: Article, u: UpdateArticle) -> (r: Article)
    ensures
        r == spec_apply_article_change(a, u),
{
    let Article { id, user_id, title, content, status, creation_date } = a;
    let UpdateArticle { id: _, title: pt, content: pc, status: ps } = u;
    Article {
        id,
        user_id,
        title: apply_field(title, pt),
        content: apply_field(content, pc),
        status: match ps {
            Option::Some(s) => s,
            Option::None => status,
        },
        creation_date,
    }
}

impl Store {
    /// Whether some stored article has this id.
    pub open spec fn spec_article_id_exists(self, id: Seq<char>) -> bool {
        exists|i: int| 0 <= i < self.articles@.len() && (#[trigger] self.articles@[i]).id@ == id
    }

    /// Whether the account with this id exists and is active.
    pub open spec fn spec_user_active(self, id: Seq<char>) -> bool {
        exists|i: int|
            0 <= i < self.users@.len() && (#[trigger] self.users@[i]).user.id@ == id
                && self.users@[i].user.account_status == AccountStatus::Active
    }

    /// The article table after a change-set is applied: the article whose id
    /// matches is changed, every other row stays untouched.
    pub open spec fn spec_apply_article_update(arts: Seq<Article>, u: UpdateArticle) -> Seq<
        Article,
    > {
        Seq::new(
            arts.len(),
            |i: int|
                if arts[i].id@ == u.id@ {
                    spec_apply_article_change(arts[i], u)
                } else {
                    arts[i]
                },
        )
    }

    fn find_article_index_by_id(&self, id: &str) -> (r: Option<usize>)
        ensures
            r matches Some(i) ==> i < self.articles@.len() && self.articles@[i as int].id@ == id@,
            r is None ==> forall|k: int|
                0 <= k < self.articles@.len() ==> (#[trigger] self.articles@[k]).id@ != id@,
    {
        let n = self.articles.len();
        let mut i: usize = 0;
        while i < n
            invariant
                n == self.articles@.len(),
                i <= n,
                forall|k: int| 0 <= k < i ==> (#[trigger] self.articles@[k]).id@ != id@,
            decreases n - i,
        {
            if str_eq(self.articles[i].id.as_str(), id) {
                return Some(i);
            }
            i = i + 1;
        }
        None
    }

    /// Returns the article with this id, if any.
    pub fn get_article_by_id(&self, id: &str) -> (r: Option<Article>)
        ensures
            r is Some <==> self.spec_article_id_exists(id@),
            r matches Some(a) ==> exists|i: int|
                0 <= i < self.articles@.len() && (#[trigger] self.articles@[i]).id@ == id@ && a
                    == self.articles@[i],
    {
        match self.find_article_index_by_id(id) {
            Some(i) => Some(self.articles[i].duplicate()),
            None => None,
        }
    }

    /// Returns one article joined with its author's username; an article
    /// whose owner has no account yields nothing, as a relational join
    /// would.
    pub fn get_article(&self, article_id: &str) -> (r: Option<ReturnArticle>)
        requires
            self.wf(),
        ensures
            r is Some <==> exists|i: int|
                0 <= i < self.articles@.len() && (#[trigger] self.articles@[i]).id@ == article_id@
                    && self.spec_user_id_exists(self.articles@[i].user_id@),
            r matches Some(ra) ==> exists|i: int|
                0 <= i < self.articles@.len() && (#[trigger] self.articles@[i]).id@ == article_id@
                    && self.spec_user_id_exists(self.articles@[i].user_id@) && ra
                    == spec_return_view(
                    self.articles@[i],
                    self.spec_author_of(self.articles@[i].user_id@),
                ),
    {
        match self.find_article_index_by_id(article_id) {
            Some(i) => {
                let a = &self.articles[i];
                match self.get_user_by_id(a.user_id.as_str()) {
                    Some(u) => {
                        proof {
                            let gi = choose|t: int|
                                0 <= t < self.users@.len() && (#[trigger] self.users@[t]).user.id@
                                    == a.user_id@ && u == self.users@[t].user;
                            let wi = choose|t: int|
                                0 <= t < self.users@.len() && (#[trigger] self.users@[t]).user.id@
                                    == a.user_id@;
                            assert(gi == wi);
                            assert(u.username == self.spec_author_of(a.user_id@));
                        }
                        Some(make_return(a, &u.username))
                    },
                    None => None,
                }
            },
            None => None,
        }
    }

    /// Appends an article row built from an already-obtained fresh id.
    /// Deterministic in its arguments: it succeeds exactly when the owner
    /// exists and is active and the id is unused and nonempty.
    pub fn insert_article_record(&mut self, a: InsertArticle, article_id: String, now: u64) -> (r:
        Result<String, AppError>)
        requires
            old(self).wf(),
        ensures
            final(self).wf(),
            final(self).users@ == old(self).users@,
            r is Err ==> *final(self) == *old(self),
            !old(self).spec_user_id_exists(a.user_id@) <==> r matches Err(AppError::NotFound),
            old(self).spec_user_id_exists(a.user_id@) && !old(self).spec_user_active(a.user_id@)
                <==> r matches Err(AppError::Unauthorized),
            old(self).spec_user_active(a.user_id@) && (old(self).spec_article_id_exists(
                article_id@,
            ) || article_id@.len() == 0) <==> r matches Err(AppError::InternalError),
            r is Ok <==> old(self).spec_user_active(a.user_id@) && !old(
                self,
            ).spec_article_id_exists(article_id@) && article_id@.len() > 0,
            r matches Ok(id) ==> ({
                let art = final(self).articles@.last();
                &&& final(self).articles@ == old(self).articles@.push(art)
                &&& art.id == article_id
                &&& art.user_id == a.user_id
                &&& art.title == a.title
                &&& art.content == a.content
                &&& art.status == (match a.status {
                    Option::Some(s) => s,
                    Option::None => ArticleStatus::Draft,
                })
                &&& art.creation_date == now
                &&& id == art.id
            }),
    {
        let owner = match self.get_user_by_id(a.user_id.as_str()) {
            Some(u) => u,
            None => {
                return Err(AppError::NotFound);
            },
        };
        let ghost wi = choose|i: int|
            0 <= i < self.users@.len() && (#[trigger] self.users@[i]).user.id@ == a.user_id@
                && owner == self.users@[i].user;
        match owner.account_status {
            AccountStatus::Active => {
                proof {
                    assert(self.spec_user_active(a.user_id@));
                }
            },
            _ => {
                proof {
                    assert forall|j: int|
                        0 <= j < self.users@.len() && (#[trigger] self.users@[j]).user.id@
                            == a.user_id@ implies self.users@[j].user.account_status
                        != AccountStatus::Active by {
                        assert(j == wi);
                    }
                }
                return Err(AppError::Unauthorized);
            },
        }
        if article_id.as_str().is_empty() {
            return Err(AppError::InternalError);
        }
        if let Some(_) = self.find_article_index_by_id(article_id.as_str()) {
            return Err(AppError::InternalError);
        }
        let returned_id = article_id.clone();
        let status = match a.status {
            Option::Some(s) => s,
            Option::None => ArticleStatus::Draft,
        };
        let art = Article {
            id: article_id,
            user_id: a.user_id,
            title: a.title,
            content: a.content,
            status,
            creation_date: now,
        };
        self.articles.push(art);
        proof {
            assert forall|i: int, j: int|
                0 <= i < j < self.articles@.len() implies (#[trigger] self.articles@[i]).id@ != (
            #[trigger] self.articles@[j]).id@ by {
                if j == self.articles@.len() - 1 {
                    assert(self.articles@[i] == old(self).articles@[i]);
                }
            }
        }
        Ok(returned_id)
    }

    /// Creates an article for an existing, active account.  An absent status
    /// makes the article start as a draft.  Returns the fresh article id.
    pub fn insert_article(&mut self, a: InsertArticle, now: u64) -> (r: Result<String, AppError>)
        requires
            old(self).wf(),
        ensures
            final(self).wf(),
            final(self).users@ == old(self).users@,
            r is Err ==> *final(self) == *old(self),
            !old(self).spec_user_id_exists(a.user_id@) <==> r matches Err(AppError::NotFound),
            old(self).spec_user_id_exists(a.user_id@) && !old(self).spec_user_active(a.user_id@)
                <==> r matches Err(AppError::Unauthorized),
            r matches Err(e) ==> e == AppError::NotFound || e == AppError::Unauthorized || e
                == AppError::InternalError,
            r matches Ok(id) ==> ({
                let art = final(self).articles@.last();
                &&& old(self).spec_user_active(a.user_id@)
                &&& final(self).articles@ == old(self).articles@.push(art)
                &&& art.user_id == a.user_id
                &&& art.title == a.title
                &&& art.content == a.content
                &&& art.status == (match a.status {
                    Option::Some(s) => s,
                    Option::None => ArticleStatus::Draft,
                })
                &&& art.creation_date == now
                &&& art.id@.len() > 0
                &&& !old(self).spec_article_id_exists(art.id@)
                &&& id == art.id
            }),
    {
        let article_id = fresh_uuid();
        self.insert_article_record(a, article_id, now)
    }

    /// Updates the article named by the change-set's id.  A missing article
    /// is reported before anything else; a change-set with no present field
    /// is rejected rather than turned into a malformed statement.
    pub fn update_article(&mut self, ua: UpdateArticle) -> (r: Result<UpdateStatement, AppError>)
        requires
            old(self).wf(),
        ensures
            final(self).wf(),
            final(self).users@ == old(self).users@,
            r is Err ==> *final(self) == *old(self),
            !old(self).spec_article_id_exists(ua.id@) <==> r matches Err(AppError::NotFound),
            old(self).spec_article_id_exists(ua.id@) && article_field_count(ua) == 0 <==> r matches
                Err(AppError::NoFieldsToUpdate),
            r matches Err(e) ==> e == AppError::NotFound || e == AppError::NoFieldsToUpdate,
            r matches Ok(st) ==> ({
                &&& st.text@ == spec_article_update_text(ua)
                &&& st.params.deep_view() == spec_article_update_params(ua)
                &&& final(self).articles@ == Store::spec_apply_article_update(
                    old(self).articles@,
                    ua,
                )
            }),
    {
        let idx = match self.find_article_index_by_id(ua.id.as_str()) {
            Some(i) => i,
            None => {
                return Err(AppError::NotFound);
            },
        };
        let st = match build_article_update(&ua) {
            Ok(st) => st,
            Err(e) => {
                return Err(e);
            },
        };
        let ghost gu = ua;
        let art = self.articles.remove(idx);
        let updated = apply_article_change(art, ua);
        self.articles.insert(idx, updated);
        proof {
            assert forall|k: int|
                0 <= k < self.articles@.len() implies #[trigger] self.articles@[k] == (
            if old(self).articles@[k].id@ == gu.id@ {
                spec_apply_article_change(old(self).articles@[k], gu)
            } else {
                old(self).articles@[k]
            }) by {
                if k != idx {
                    assert(self.articles@[k] == old(self).articles@[k]);
                    assert(old(self).articles@[k].id@ != gu.id@);
                }
            }
            assert(self.articles@ =~= Store::spec_apply_article_update(old(self).articles@, gu));
            assert forall|a: int, b: int|
                0 <= a < b < self.articles@.len() implies (#[trigger] self.articles@[a]).id@ != (
            #[trigger] self.articles@[b]).id@ by {
                assert(old(self).articles@[a].id@ != old(self).articles@[b].id@);
            }
        }
        Ok(st)
    }

    /// Deletes an article.  `auth_user_id` must be the identity established
    /// by request interception, never a caller-supplied field: ownership is
    /// checked against it, and a published article is never deleted.
    pub fn delete_article(&mut self, id: &str, auth_user_id: &str) -> (r: Result<(), AppError>)
        requires
            old(self).wf(),
        ensures
            final(self).wf(),
            final(self).users@ == old(self).users@,
            r is Err ==> *final(self) == *old(self),
            !old(self).spec_article_id_exists(id@) <==> r matches Err(AppError::NotFound),
            r matches Err(AppError::Unauthorized) <==> exists|i: int|
                0 <= i < old(self).articles@.len() && (#[trigger] old(self).articles@[i]).id@ == id@
                    && old(self).articles@[i].user_id@ != auth_user_id@,
            r matches Err(AppError::ValidationError) <==> exists|i: int|
                0 <= i < old(self).articles@.len() && (#[trigger] old(self).articles@[i]).id@ == id@
                    && old(self).articles@[i].user_id@ == auth_user_id@ && old(
                    self,
                ).articles@[i].status == ArticleStatus::Published,
            r matches Err(e) ==> e == AppError::NotFound || e == AppError::Unauthorized || e
                == AppError::ValidationError,
            r is Ok ==> exists|i: int|
                0 <= i < old(self).articles@.len() && (#[trigger] old(self).articles@[i]).id@ == id@
                    && old(self).articles@[i].user_id@ == auth_user_id@ && old(
                    self,
                ).articles@[i].status != ArticleStatus::Published && final(self).articles@ == old(
                    self,
                ).articles@.remove(i),
    {
        let idx = match self.find_article_index_by_id(id) {
            Some(i) => i,
            None => {
                return Err(AppError::NotFound);
            },
        };
        proof {
            assert forall|j: int|
                0 <= j < self.articles@.len() && (#[trigger] self.articles@[j]).id@ == id@ implies j
                == idx by {}
        }
        if !str_eq(self.articles[idx].user_id.as_str(), auth_user_id) {
            return Err(AppError::Unauthorized);
        }
        match self.articles[idx].status {
            ArticleStatus::Published => {
                return Err(AppError::ValidationError);
            },
            _ => {},
        }
        self.articles.remove(idx);
        proof {
            assert forall|a: int, b: int|
                0 <= a < b < self.articles@.len() implies (#[trigger] self.articles@[a]).id@ != (
            #[trigger] self.articles@[b]).id@ by {
                let oa: int = if a < idx {
                    a
                } else {
                    a + 1
                };
                let ob: int = if b < idx {
                    b
                } else {
                    b + 1
                };
                assert(self.articles@[a] == old(self).articles@[oa]);
                assert(self.articles@[b] == old(self).articles@[ob]);
            }
        }
        Ok(())
    }

    /// Lists one owner's articles, optionally narrowed to one status, each
    /// joined with the owner's username.  An owner with no account yields an
    /// empty listing.
    pub fn get_articles_by_user_id(&self, user_id: &str, status: Option<ArticleStatus>) -> (r: Vec<
        ReturnArticle,
    >)
        requires
            self.wf(),
        ensures
            !self.spec_user_id_exists(user_id@) ==> r@.len() == 0,
            self.spec_user_id_exists(user_id@) ==> exists|j: int|
                0 <= j < self.users@.len() && (#[trigger] self.users@[j]).user.id@ == user_id@ && r@
                    == spec_owner_listing(
                    self.articles@,
                    user_id@,
                    status,
                    self.users@[j].user.username,
                ),
    {
        let owner = match self.get_user_by_id(user_id) {
            Some(u) => u,
            None => {
                return Vec::new();
            },
        };
        let author = owner.username;
        let n = self.articles.len();
        let mut out: Vec<ReturnArticle> = Vec::new();
        let mut i: usize = 0;
        proof {
            assert(self.articles@.skip(0) == self.articles@);
        }
        while i < n
            invariant
                n == self.articles@.len(),
                i <= n,
                spec_owner_listing(self.articles@, user_id@, status, author) =~= out@
                    + spec_owner_listing(self.articles@.skip(i as int), user_id@, status, author),
            decreases n - i,
        {
            let a = &self.articles[i];
            proof {
                assert(self.articles@.skip(i as int).first() == self.articles@[i as int]);
                assert(self.articles@.skip(i as int).drop_first() == self.articles@.skip(
                    i as int + 1,
                ));
            }
            let keep = str_eq(a.user_id.as_str(), user_id) && (match status {
                Option::Some(s) => a.status == s,
                Option::None => true,
            });
            if keep {
                out.push(make_return(a, &author));
            }
            proof {
                assert(spec_owner_listing(self.articles@, user_id@, status, author) =~= out@
                    + spec_owner_listing(self.articles@.skip(i as int + 1), user_id@, status, author));
            }
            i = i + 1;
        }
        proof {
            assert(self.articles@.skip(n as int).len() == 0);
        }
        out
    }
}

/// Listing rows in newest-first order of creation.
pub open spec fn sorted_desc(s: Seq<ReturnArticle>) -> bool {
    forall|k: int, l: int|
        0 <= k < l < s.len() ==> (#[trigger] s[k]).creation_date >= (#[trigger] s[l]).creation_date
}

/// Listing rows in oldest-first order of creation.
pub open spec fn sorted_asc(s: Seq<ReturnArticle>) -> bool {
    forall|k: int, l: int|
        0 <= k < l < s.len() ==> (#[trigger] s[k]).creation_date <= (#[trigger] s[l]).creation_date
}

/// Sorts listing rows newest first.  The result is a permutation of the
/// input: nothing is added, dropped or altered.
fn sort_articles_by_date_desc(v: Vec<ReturnArticle>) -> (r: Vec<ReturnArticle>)
    ensures
        sorted_desc(r@),
        r@.to_multiset() == v@.to_multiset(),
        r@.len() == v@.len(),
{
    broadcast use vstd::seq_lib::group_to_multiset_ensures;
    broadcast use vstd::multiset::group_multiset_axioms;

    let mut rest = v;
    let ghost orig = rest@;
    let mut out: Vec<ReturnArticle> = Vec::new();
    proof {
        assert(out@.to_multiset().add(rest@.to_multiset()) =~= orig.to_multiset());
    }
    while rest.len() > 0
        invariant
            out@.to_multiset().add(rest@.to_multiset()) == orig.to_multiset(),
            out@.len() + rest@.len() == orig.len(),
            sorted_desc(out@),
        decreases rest@.len(),
    {
        let ghost pre_rest = rest@;
        let x = rest.pop().unwrap();
        proof {
            assert(pre_rest =~= rest@.push(x));
        }
        let n = out.len();
        let mut j: usize = 0;
        while j < n && out[j].creation_date >= x.creation_date
            invariant
                n == out@.len(),
                j <= n,
                sorted_desc(out@),
                forall|k: int| 0 <= k < j ==> (#[trigger] out@[k]).creation_date >= x.creation_date,
            decreases n - j,
        {
            j = j + 1;
        }
        let ghost pre_out = out@;
        out.insert(j, x);
        proof {
            vstd::seq_lib::to_multiset_insert(pre_out, j as int, x);
            vstd::seq_lib::to_multiset_build(rest@, x);
            assert(out@.to_multiset() == pre_out.to_multiset().insert(x));
            assert(pre_rest.to_multiset() == rest@.to_multiset().insert(x));
            assert(out@.to_multiset().add(rest@.to_multiset()) =~= orig.to_multiset());
            assert(out@ =~= pre_out.take(j as int) + seq![x] + pre_out.skip(j as int));
            assert forall|k: int| j <= k < pre_out.len() implies (
            #[trigger] pre_out[k]).creation_date <= x.creation_date by {
                assert(pre_out[j as int].creation_date < x.creation_date);
                assert(pre_out[j as int].creation_date >= pre_out[k].creation_date);
            }
            assert forall|a: int, b: int|
                0 <= a < b < out@.len() implies (#[trigger] out@[a]).creation_date >= (
            #[trigger] out@[b]).creation_date by {
                assert(forall|k: int| 0 <= k < j ==> out@[k] == pre_out[k]);
                assert(out@[j as int] == x);
                assert(forall|k: int| j < k < out@.len() ==> out@[k] == pre_out[k - 1]);
            }
        }
    }
    proof {
        assert(rest@ =~= Seq::<ReturnArticle>::empty());
        vstd::multiset::lemma_multiset_empty_len(rest@.to_multiset());
        assert(rest@.to_multiset() =~= Multiset::<ReturnArticle>::empty());
        assert(out@.to_multiset() =~= orig.to_multiset());
    }
    out
}

/// Reverses a row listing.
fn reverse_articles(v: Vec<ReturnArticle>) -> (r: Vec<ReturnArticle>)
    ensures
        r@.len() == v@.len(),
        forall|i: int| 0 <= i < v@.len() ==> #[trigger] r@[i] == v@[v@.len() - 1 - i],
        r@.to_multiset() == v@.to_multiset(),
{
    broadcast use vstd::seq_lib::group_to_multiset_ensures;
    broadcast use vstd::multiset::group_multiset_axioms;

    let mut rest = v;
    let ghost orig = rest@;
    let mut out: Vec<ReturnArticle> = Vec::new();
    proof {
        assert(out@.to_multiset().add(rest@.to_multiset()) =~= orig.to_multiset());
        assert(rest@ =~= orig.take(rest@.len() as int));
    }
    while rest.len() > 0
        invariant
            out@.len() + rest@.len() == orig.len(),
            rest@ == orig.take(rest@.len() as int),
            forall|i: int| 0 <= i < out@.len() ==> #[trigger] out@[i] == orig[orig.len() - 1 - i],
            out@.to_multiset().add(rest@.to_multiset()) == orig.to_multiset(),
        decreases rest@.len(),
    {
        let ghost pre_rest = rest@;
        let x = rest.pop().unwrap();
        proof {
            assert(pre_rest =~= rest@.push(x));
            assert(rest@ =~= orig.take(rest@.len() as int));
        }
        let ghost pre_out = out@;
        out.push(x);
        proof {
            vstd::seq_lib::to_multiset_build(pre_out, x);
            vstd::seq_lib::to_multiset_build(rest@, x);
            assert(out@.to_multiset() == pre_out.to_multiset().insert(x));
            assert(pre_rest.to_multiset() == rest@.to_multiset().insert(x));
            assert(out@.to_multiset().add(rest@.to_multiset()) =~= orig.to_multiset());
        }
    }
    proof {
        vstd::multiset::lemma_multiset_empty_len(rest@.to_multiset());
        assert(rest@.to_multiset() =~= Multiset::<ReturnArticle>::empty());
        assert(out@.to_multiset() =~= orig.to_multiset());
    }
    out
}

/// Top-of-the-order law for a sorted prefix: the first `k` rows of a
/// newest-first permutation of `full` are rows of `full`, and every row of
/// `full` left out is no newer than any row kept.
proof fn lemma_sorted_prefix_top(s: Seq<ReturnArticle>, full: Seq<ReturnArticle>, k: int)
    requires
        sorted_desc(s),
        s.to_multiset() == full.to_multiset(),
        0 <= k <= s.len(),
    ensures
        sorted_desc(s.take(k)),
        s.take(k).to_multiset().subset_of(full.to_multiset()),
        forall|y: ReturnArticle|
            full.to_multiset().count(y) > (#[trigger] s.take(k).to_multiset().count(y))
                ==> forall|l: int|
                0 <= l < k ==> y.creation_date <= (#[trigger] s.take(k)[l]).creation_date,
{
    broadcast use vstd::seq_lib::group_to_multiset_ensures;
    broadcast use vstd::seq_lib::lemma_multiset_commutative;
    broadcast use vstd::multiset::group_multiset_axioms;

    let pre = s.take(k);
    let suf = s.skip(k);
    assert(s =~= pre + suf);
    assert(s.to_multiset() == pre.to_multiset().add(suf.to_multiset()));
    assert forall|y: ReturnArticle|
        full.to_multiset().count(y) > (#[trigger] pre.to_multiset().count(y)) implies forall|
        l: int,
    |
        0 <= l < k ==> y.creation_date <= (#[trigger] pre[l]).creation_date by {
        assert(suf.to_multiset().count(y) > 0);
        assert(suf.contains(y));
        let m = choose|m: int| 0 <= m < suf.len() && suf[m] == y;
        assert(suf[m] == s[k + m]);
        assert forall|l: int| 0 <= l < k implies y.creation_date <= (
        #[trigger] pre[l]).creation_date by {
            assert(s[l].creation_date >= s[k + m].creation_date);
        }
    }
}

impl Store {
    /// The username of the stored account with this id; meaningful only when
    /// such an account exists, in which case well-formedness makes it unique.
    pub open spec fn spec_author_of(self, id: Seq<char>) -> String {
        let i = choose|i: int|
            0 <= i < self.users@.len() && (#[trigger] self.users@[i]).user.id@ == id;
        self.users@[i].user.username
    }

    /// The published rows of an article sequence in store order, each joined
    /// with its author's username; an article whose owner has no account is
    /// left out, as a relational join would leave it out.
    pub open spec fn spec_published_listing(self, arts: Seq<Article>) -> Seq<ReturnArticle>
        decreases arts.len(),
    {
        if arts.len() == 0 {
            Seq::empty()
        } else {
            let rest = self.spec_published_listing(arts.drop_first());
            let a = arts.first();
            if a.status == ArticleStatus::Published && self.spec_user_id_exists(a.user_id@) {
                seq![spec_return_view(a, self.spec_author_of(a.user_id@))] + rest
            } else {
                rest
            }
        }
    }

    fn published_join(&self) -> (r: Vec<ReturnArticle>)
        requires
            self.wf(),
        ensures
            r@ == self.spec_published_listing(self.articles@),
    {
        let n = self.articles.len();
        let mut out: Vec<ReturnArticle> = Vec::new();
        let mut i: usize = 0;
        proof {
            assert(self.articles@.skip(0) == self.articles@);
        }
        while i < n
            invariant
                self.wf(),
                n == self.articles@.len(),
                i <= n,
                self.spec_published_listing(self.articles@) =~= out@ + self.spec_published_listing(
                    self.articles@.skip(i as int),
                ),
            decreases n - i,
        {
            let a = &self.articles[i];
            proof {
                assert(self.articles@.skip(i as int).first() == self.articles@[i as int]);
                assert(self.articles@.skip(i as int).drop_first() == self.articles@.skip(
                    i as int + 1,
                ));
            }
            let published = match a.status {
                ArticleStatus::Published => true,
                _ => false,
            };
            if published {
                match self.get_user_by_id(a.user_id.as_str()) {
                    Some(u) => {
                        proof {
                            let gi = choose|t: int|
                                0 <= t < self.users@.len() && (#[trigger] self.users@[t]).user.id@
                                    == a.user_id@ && u == self.users@[t].user;
                            let wi = choose|t: int|
                                0 <= t < self.users@.len() && (#[trigger] self.users@[t]).user.id@
                                    == a.user_id@;
                            assert(gi == wi);
                            assert(u.username == self.spec_author_of(a.user_id@));
                        }
                        out.push(make_return(a, &u.username));
                    },
                    None => {},
                }
            }
            proof {
                assert(self.spec_published_listing(self.articles@) =~= out@
                    + self.spec_published_listing(self.articles@.skip(i as int + 1)));
            }
            i = i + 1;
        }
        proof {
            assert(self.articles@.skip(n as int).len() == 0);
            assert(out@ =~= self.spec_published_listing(self.articles@));
        }
        out
    }

    /// The newest published articles across all authors, newest first, at
    /// most ten of them: every row kept comes from the published join, and
    /// every published row left out is no newer than any row kept.
    pub fn get_latest_articles(&self) -> (r: Vec<ReturnArticle>)
        requires
            self.wf(),
        ensures
            ({
                let full = self.spec_published_listing(self.articles@);
                &&& sorted_desc(r@)
                &&& r@.len() == (if full.len() <= 10 {
                    full.len()
                } else {
                    10
                })
                &&& r@.to_multiset().subset_of(full.to_multiset())
                &&& forall|y: ReturnArticle|
                    full.to_multiset().count(y) > (#[trigger] r@.to_multiset().count(y))
                        ==> forall|l: int|
                        0 <= l < r@.len() ==> y.creation_date <= (
                        #[trigger] r@[l]).creation_date
            }),
    {
        let joined = self.published_join();
        let mut sorted = sort_articles_by_date_desc(joined);
        let k = if sorted.len() <= 10 {
            sorted.len()
        } else {
            10
        };
        let ghost s = sorted@;
        proof {
            lemma_sorted_prefix_top(s, self.spec_published_listing(self.articles@), k as int);
        }
        sorted.truncate(k);
        proof {
            assert(sorted@ =~= s.take(k as int));
        }
        sorted
    }

    /// Every published article across all authors, oldest first: exactly the
    /// published join, reordered.
    pub fn get_all_articles(&self) -> (r: Vec<ReturnArticle>)
        requires
            self.wf(),
        ensures
            ({
                let full = self.spec_published_listing(self.articles@);
                &&& sorted_asc(r@)
                &&& r@.len() == full.len()
                &&& r@.to_multiset() == full.to_multiset()
            }),
    {
        let joined = self.published_join();
        let sorted = sort_articles_by_date_desc(joined);
        let rev = reverse_articles(sorted);
        rev
    }

    /// One owner's newest articles of any status, newest first, at most
    /// seven of them, each joined with the owner's username.
    pub fn get_latest_articles_by_user_id(&self, id: &str) -> (r: Vec<ReturnArticle>)
        requires
            self.wf(),
        ensures
            !self.spec_user_id_exists(id@) ==> r@.len() == 0,
            self.spec_user_id_exists(id@) ==> exists|j: int|
                0 <= j < self.users@.len() && (#[trigger] self.users@[j]).user.id@ == id@ && ({
                    let full = spec_owner_listing(
                        self.articles@,
                        id@,
                        Option::None,
                        self.users@[j].user.username,
                    );
                    &&& sorted_desc(r@)
                    &&& r@.len() == (if full.len() <= 7 {
                        full.len()
                    } else {
                        7
                    })
                    &&& r@.to_multiset().subset_of(full.to_multiset())
                    &&& forall|y: ReturnArticle|
                        full.to_multiset().count(y) > (#[trigger] r@.to_multiset().count(y))
                            ==> forall|l: int|
                            0 <= l < r@.len() ==> y.creation_date <= (
                            #[trigger] r@[l]).creation_date
                }),
    {
        let owned = self.get_articles_by_user_id(id, None);
        if owned.len() == 0 {
            return owned;
        }
        let ghost full = owned@;
        let mut sorted = sort_articles_by_date_desc(owned);
        let k = if sorted.len() <= 7 {
            sorted.len()
        } else {
            7
        };
        let ghost s = sorted@;
        proof {
            lemma_sorted_prefix_top(s, full, k as int);
        }
        sorted.truncate(k);
        proof {
            assert(sorted@ =~= s.take(k as int));
        }
        sorted
    }
}

} // verus!
