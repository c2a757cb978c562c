use vstd::prelude::*;
use vstd::string::StringExecFns;

use crate::errors::AppError;
use crate::models::{status_chars, UpdateArticle, UpdateUser};
use crate::password::{bcrypt_matches, hash_password};

verus! {

/// A parameterized update statement: the statement text with ordinal
/// placeholders, and the bound values in placeholder order, kept together as
/// one unit so a caller cannot mismatch ordinals and values.  Values are
/// never interpolated into the text.
#[derive(Debug)]
pub struct UpdateStatement {
    pub text: String,
    pub params: Vec<String>,
}

/// The decimal digit used for the `i`-th ordinal placeholder.
pub open spec fn spec_digit(i: int) -> Seq<char> {
    if i == 1 {
        "1"@
    } else if i == 2 {
        "2"@
    } else if i == 3 {
        "3"@
    } else if i == 4 {
        "4"@
    } else if i == 5 {
        "5"@
    } else if i == 6 {
        "6"@
    } else if i == 7 {
        "7"@
    } else if i == 8 {
        "8"@
    } else {
        "9"@
    }
}

fn digit_str(i: usize) -> (r: &'static str)
    requires
        1 <= i <= 9,
    ensures
        r@ == spec_digit(i as int),
{
    match i {
        1 => "1",
        2 => "2",
        3 => "3",
        4 => "4",
        5 => "5",
        6 => "6",
        7 => "7",
        8 => "8",
        _ => "9",
    }
}

/// One `col = $i` fragment, preceded by a space for the first fragment and
/// by a comma otherwise.
pub open spec fn spec_set_clause(first: bool, col: Seq<char>, i: int) -> Seq<char> {
    (if first {
        " "@
    } else {
        ", "@
    }) + col + " = $"@ + spec_digit(i)
}

/// Extends a statement accumulator (text so far, next ordinal) by one column
/// if that column is present in the change-set.
pub open spec fn spec_add_clause(acc: (Seq<char>, int), present: bool, col: Seq<char>) -> (
    Seq<char>,
    int,
) {
    if present {
        (acc.0 + spec_set_clause(acc.1 == 1, col, acc.1), acc.1 + 1)
    } else {
        acc
    }
}

/// The parameter slot contributed by one optional text field.
pub open spec fn spec_opt_view(o: Option<String>) -> Seq<Seq<char>> {
    match o {
        Option::Some(v) => seq![v@],
        Option::None => Seq::empty(),
    }
}

fn push_set_clause(text: &mut String, first: bool, col: &str, i: usize)
    requires
        1 <= i <= 9,
    ensures
        final(text)@ == old(text)@ + spec_set_clause(first, col@, i as int),
{
    if first {
        text.append(" ");
    } else {
        text.append(", ");
    }
    text.append(col);
    text.append(" = $");
    text.append(digit_str(i));
    proof {
        assert(text@ =~= old(text)@ + spec_set_clause(first, col@, i as int));
    }
}

fn add_field(
    text: &mut String,
    params: &mut Vec<String>,
    idx: usize,
    value: &Option<String>,
    col: &str,
) -> (new_idx: usize)
    requires
        1 <= idx <= 8,
    ensures
        final(text)@ == spec_add_clause((old(text)@, idx as int), *value is Some, col@).0,
        new_idx as int == spec_add_clause((old(text)@, idx as int), *value is Some, col@).1,
        final(params).deep_view() == old(params).deep_view() + spec_opt_view(*value),
{
    match value {
        Option::Some(v) => {
            push_set_clause(text, idx == 1, col, idx);
            params.push(v.clone());
            proof {
                assert(params.deep_view() =~= old(params).deep_view() + spec_opt_view(*value));
            }
            idx + 1
        },
        Option::None => {
            proof {
                assert(params.deep_view() =~= old(params).deep_view() + spec_opt_view(*value));
            }
            idx
        },
    }
}

/// The number of fields present in a user change-set.
pub open spec fn user_field_count(u: UpdateUser) -> int {
    (if u.first_name is Some {
        1int
    } else {
        0int
    }) + (if u.last_name is Some {
        1int
    } else {
        0int
    }) + (if u.email is Some {
        1int
    } else {
        0int
    }) + (if u.about is Some {
        1int
    } else {
        0int
    }) + (if u.username is Some {
        1int
    } else {
        0int
    }) + (if u.password is Some {
        1int
    } else {
        0int
    })
}

/// The text and next ordinal after the `SET` fragments of a user update, in
/// the fixed declared field order.
pub open spec fn spec_user_stmt_acc(u: UpdateUser) -> (Seq<char>, int) {
    let acc = ("UPDATE users SET"@, 1int);
    let acc = spec_add_clause(acc, u.first_name is Some, "first_name"@);
    let acc = spec_add_clause(acc, u.last_name is Some, "last_name"@);
    let acc = spec_add_clause(acc, u.email is Some, "email"@);
    let acc = spec_add_clause(acc, u.about is Some, "about"@);
    let acc = spec_add_clause(acc, u.username is Some, "username"@);
    let acc = spec_add_clause(acc, u.password is Some, "password"@);
    acc
}

/// The complete text of a user update statement.
pub open spec fn spec_user_update_text(u: UpdateUser) -> Seq<char> {
    spec_user_stmt_acc(u).0 + " WHERE id = $"@ + spec_digit(spec_user_stmt_acc(u).1) + ";"@
}

/// The bound values of a user update statement, in placeholder order: the
/// present fields in declared order, then the id for the `WHERE` clause.
pub open spec fn spec_user_update_params(u: UpdateUser) -> Seq<Seq<char>> {
    spec_opt_view(u.first_name) + spec_opt_view(u.last_name) + spec_opt_view(u.email)
        + spec_opt_view(u.about) + spec_opt_view(u.username) + spec_opt_view(u.password)
        + seq![u.id@]
}

/// Builds the parameterized update statement for a user change-set.
///
/// Fields enter in a fixed declared order, each bound through an ordinal
/// placeholder, and the id is appended as the final bound parameter.  A
/// change-set with no present field is rejected, never turned into a
/// malformed statement.
pub fn build_user_update(u: &UpdateUser) -> (r: Result<UpdateStatement, AppError>)
    ensures
        r is Ok <==> user_field_count(*u) > 0,
        r is Err ==> r matches Err(AppError::NoFieldsToUpdate),
        r matches Ok(st) ==> st.text@ == spec_user_update_text(*u) && st.params.deep_view()
            == spec_user_update_params(*u),
{
    let mut text = String::from_str("UPDATE users SET");
    let mut params: Vec<String> = Vec::new();
    let mut idx: usize = 1;
    idx = add_field(&mut text, &mut params, idx, &u.first_name, "first_name");
    idx = add_field(&mut text, &mut params, idx, &u.last_name, "last_name");
    idx = add_field(&mut text, &mut params, idx, &u.email, "email");
    idx = add_field(&mut text, &mut params, idx, &u.about, "about");
    idx = add_field(&mut text, &mut params, idx, &u.username, "username");
    idx = add_field(&mut text, &mut params, idx, &u.password, "password");
    if idx == 1 {
        return Err(AppError::NoFieldsToUpdate);
    }
    text.append(" WHERE id = $");
    text.append(digit_str(idx));
    text.append(";");
    params.push(u.id.clone());
    proof {
        assert(text@ =~= spec_user_update_text(*u));
        assert(params.deep_view() =~= spec_user_update_params(*u));
    }
    Ok(UpdateStatement { text, params })
}

/// The number of fields present in an article change-set.
pub open spec fn article_field_count(u: UpdateArticle) -> int {
    (if u.title is Some {
        1int
    } else {
        0int
    }) + (if u.content is Some {
        1int
    } else {
        0int
    }) + (if u.status is Some {
        1int
    } else {
        0int
    })
}

/// The text and next ordinal after the `SET` fragments of an article update,
/// in the fixed declared field order.
pub open spec fn spec_article_stmt_acc(u: UpdateArticle) -> (Seq<char>, int) {
    let acc = ("UPDATE articles SET"@, 1int);
    let acc = spec_add_clause(acc, u.title is Some, "title"@);
    let acc = spec_add_clause(acc, u.content is Some, "content"@);
    let acc = spec_add_clause(acc, u.status is Some, "status"@);
    acc
}

/// The complete text of an article update statement.
pub open spec fn spec_article_update_text(u: UpdateArticle) -> Seq<char> {
    spec_article_stmt_acc(u).0 + " WHERE id = $"@ + spec_digit(spec_article_stmt_acc(u).1) + ";"@
}

/// The bound values of an article update statement, in placeholder order.
pub open spec fn spec_article_update_params(u: UpdateArticle) -> Seq<Seq<char>> {
    spec_opt_view(u.title) + spec_opt_view(u.content) + (match u.status {
        Option::Some(s) => seq![status_chars(s)],
        Option::None => Seq::empty(),
    }) + seq![u.id@]
}

/// Builds the parameterized update statement for an article change-set, in
/// the same guarded way as for a user change-set.
pub fn build_article_update(u: &UpdateArticle) -> (r: Result<UpdateStatement, AppError>)
    ensures
        r is Ok <==> article_field_count(*u) > 0,
        r is Err ==> r matches Err(AppError::NoFieldsToUpdate),
        r matches Ok(st) ==> st.text@ == spec_article_update_text(*u) && st.params.deep_view()
            == spec_article_update_params(*u),
{
    let mut text = String::from_str("UPDATE articles SET");
    let mut params: Vec<String> = Vec::new();
    let mut idx: usize = 1;
    idx = add_field(&mut text, &mut params, idx, &u.title, "title");
    idx = add_field(&mut text, &mut params, idx, &u.content, "content");
    match &u.status {
        Option::Some(s) => {
            push_set_clause(&mut text, idx == 1, "status", idx);
            params.push(String::from_str(s.as_str()));
            proof {
                assert(params.deep_view() =~= spec_opt_view(u.title) + spec_opt_view(u.content)
                    + seq![status_chars(u.status->0)]);
            }
            idx = idx + 1;
        },
        Option::None => {},
    }
    if idx == 1 {
        return Err(AppError::NoFieldsToUpdate);
    }
    text.append(" WHERE id = $");
    text.append(digit_str(idx));
    text.append(";");
    params.push(u.id.clone());
    proof {
        assert(text@ =~= spec_article_update_text(*u));
        assert(params.deep_view() =~= spec_article_update_params(*u));
    }
    Ok(UpdateStatement { text, params })
}

/// Routes the password field of a user change-set through the password
/// hasher before it can be bound; no other field is transformed.
pub fn prepare_user_update(u: UpdateUser) -> (r: Result<UpdateUser, AppError>)
    ensures
        r matches Ok(p) ==> {
            &&& p.id == u.id
            &&& p.first_name == u.first_name
            &&& p.last_name == u.last_name
            &&& p.username == u.username
            &&& p.email == u.email
            &&& p.about == u.about
            &&& match (u.password, p.password) {
                (Option::None, Option::None) => true,
                (Option::Some(pw), Option::Some(d)) => bcrypt_matches(pw@, d@),
                _ => false,
            }
        },
        r matches Err(e) ==> e == AppError::InternalError && u.password is Some,
{
    let UpdateUser { id, first_name, last_name, username, password, email, about } = u;
    let hashed = match password {
        Option::Some(pw) => {
            match hash_password(pw.as_str()) {
                Ok(d) => Option::Some(d),
                Err(_) => {
                    return Err(AppError::InternalError);
                },
            }
        },
        Option::None => Option::None,
    };
    Ok(UpdateUser { id, first_name, last_name, username, password: hashed, email, about })
}

/// Hard security invariant of the builder: the statement text depends only
/// on which fields are present, never on any bound value.  Two user
/// change-sets with the same presence pattern yield the same text; values
/// travel exclusively through the ordered parameter list.
pub proof fn lemma_user_text_value_independent(a: UpdateUser, b: UpdateUser)
    requires
        a.first_name is Some <==> b.first_name is Some,
        a.last_name is Some <==> b.last_name is Some,
        a.email is Some <==> b.email is Some,
        a.about is Some <==> b.about is Some,
        a.username is Some <==> b.username is Some,
        a.password is Some <==> b.password is Some,
    ensures
        spec_user_update_text(a) == spec_user_update_text(b),
{
}

/// The same value-independence law for article change-sets.
pub proof fn lemma_article_text_value_independent(a: UpdateArticle, b: UpdateArticle)
    requires
        a.title is Some <==> b.title is Some,
        a.content is Some <==> b.content is Some,
        a.status is Some <==> b.status is Some,
    ensures
        spec_article_update_text(a) == spec_article_update_text(b),
{
}

} // verus!
