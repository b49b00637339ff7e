use vstd::prelude::*;

use crate::db::effective_limit_spec;
use crate::error::FactorioopsError;
use crate::ids::{UserId, ulid_text};
use crate::models::{DbUser, PaginationOptions, UserFilter, UserFilterView};
use crate::query::{EntryView, QueryField, in_condition, filters_view, query_for, apply_filters};

verus! {

/// A request to list users: optional filters and optional pagination.
#[derive(Debug)]
pub struct ListUsersRequest {
    pub filters: Option<Vec<UserFilter>>,
    pub pagination: Option<PaginationOptions>,
}

/// The filters of a lookup by identifier: one filter, on that identifier.
pub open spec fn id_lookup_filters(id: u128) -> Seq<UserFilterView> {
    seq![UserFilterView { id: Some(seq![id]), username: None, email: None }]
}

/// The filters of a lookup by username: one filter, on that username.
pub open spec fn username_lookup_filters(username: Seq<char>) -> Seq<UserFilterView> {
    seq![UserFilterView { id: None, username: Some(seq![username]), email: None }]
}

/// The filters of a lookup by email: one filter, on that email.
pub open spec fn email_lookup_filters(email: Seq<char>) -> Seq<UserFilterView> {
    seq![UserFilterView { id: None, username: None, email: Some(seq![email]) }]
}

/// The pagination of a lookup: a single result.
pub open spec fn single_result_page() -> Option<PaginationOptions> {
    Some(PaginationOptions { limit: Some(1) })
}

/// The pagination of a lookup: a single result.
fn single_result_pagination() -> (p: Option<PaginationOptions>)
    ensures
        p == single_result_page(),
{
    Some(PaginationOptions { limit: Some(1) })
}

/// The listing that looks a user up by identifier.
pub fn get_user_request(id: UserId) -> (req: ListUsersRequest)
    ensures
        filters_view(req.filters) == Some(id_lookup_filters(id.bits)),
        req.pagination == single_result_page(),
{
    let mut ids: Vec<UserId> = Vec::new();
    ids.push(id);
    let mut filters: Vec<UserFilter> = Vec::new();
    filters.push(UserFilter { id: Some(ids), username: None, email: None });
    let req = ListUsersRequest { filters: Some(filters), pagination: single_result_pagination() };
    assert(filters_view(req.filters).unwrap()[0].id.unwrap() =~= seq![id.bits]);
    assert(filters_view(req.filters).unwrap() =~= id_lookup_filters(id.bits));
    req
}

/// The listing that looks a user up by username.
pub fn get_user_by_username_request(username: String) -> (req: ListUsersRequest)
    ensures
        filters_view(req.filters) == Some(username_lookup_filters(username@)),
        req.pagination == single_result_page(),
{
    let ghost name = username@;
    let mut names: Vec<String> = Vec::new();
    names.push(username);
    let mut filters: Vec<UserFilter> = Vec::new();
    filters.push(UserFilter { id: None, username: Some(names), email: None });
    let req = ListUsersRequest { filters: Some(filters), pagination: single_result_pagination() };
    assert(filters_view(req.filters).unwrap()[0].username.unwrap() =~= seq![name]);
    assert(filters_view(req.filters).unwrap() =~= username_lookup_filters(name));
    req
}

/// The listing that looks a user up by email.
pub fn get_user_by_email_request(email: String) -> (req: ListUsersRequest)
    ensures
        filters_view(req.filters) == Some(email_lookup_filters(email@)),
        req.pagination == single_result_page(),
{
    let ghost e = email@;
    let mut emails: Vec<String> = Vec::new();
    emails.push(email);
    let mut filters: Vec<UserFilter> = Vec::new();
    filters.push(UserFilter { id: None, username: None, email: Some(emails) });
    let req = ListUsersRequest { filters: Some(filters), pagination: single_result_pagination() };
    assert(filters_view(req.filters).unwrap()[0].email.unwrap() =~= seq![e]);
    assert(filters_view(req.filters).unwrap() =~= email_lookup_filters(e));
    req
}

/// The first of the listed users, if any.
pub fn first_user(users: &Vec<DbUser>) -> (res: Option<DbUser>)
    ensures
        users@.len() == 0 ==> res is None,
        users@.len() > 0 ==> (res matches Some(u) && u@ == users@[0]@),
{
    if users.len() == 0 {
        None
    } else {
        Some(users[0].clone())
    }
}

/// The outcome of a lookup, from the outcome of its listing: the first
/// listed user, or the listing's error.
pub fn finish_lookup(listed: Result<Vec<DbUser>, FactorioopsError>) -> (res: Result<
    Option<DbUser>,
    FactorioopsError,
>)
    ensures
        match listed {
            Ok(users) => res matches Ok(found) && (users@.len() == 0 ==> found is None) && (
            users@.len() > 0 ==> (found matches Some(u) && u@ == users@[0]@)),
            Err(e) => res == Err::<Option<DbUser>, FactorioopsError>(e),
        },
{
    match listed {
        Ok(users) => Ok(first_user(&users)),
        Err(e) => Err(e),
    }
}

/// A lookup by identifier sends a single-clause query, on the identifier's
/// text, for at most one user.
pub proof fn lemma_id_lookup_query(id: u128)
    ensures
        query_for(Some(id_lookup_filters(id))) == seq![(QueryField::Id.name_spec(), in_condition(seq![ulid_text(id)]))],
        effective_limit_spec(single_result_page()) == 1,
{
    let fs = id_lookup_filters(id);
    assert(fs.drop_last() =~= Seq::<UserFilterView>::empty());
    assert(seq![id].map_values(|b: u128| ulid_text(b)) =~= seq![ulid_text(id)]);
    assert(apply_filters(fs.drop_last()) == Seq::<EntryView>::empty());
    assert(apply_filters(fs) =~= seq![(QueryField::Id.name_spec(), in_condition(seq![ulid_text(id)]))]);
}

/// A lookup by username sends a single-clause query, on the username, for
/// at most one user.
pub proof fn lemma_username_lookup_query(username: Seq<char>)
    ensures
        query_for(Some(username_lookup_filters(username))) == seq![
            (QueryField::Username.name_spec(), in_condition(seq![username])),
        ],
        effective_limit_spec(single_result_page()) == 1,
{
    let fs = username_lookup_filters(username);
    assert(fs.drop_last() =~= Seq::<UserFilterView>::empty());
    assert(apply_filters(fs.drop_last()) == Seq::<EntryView>::empty());
    assert(apply_filters(fs) =~= seq![(QueryField::Username.name_spec(), in_condition(seq![username]))]);
}

/// A lookup by email sends a single-clause query, on the email, for at most
/// one user.
pub proof fn lemma_email_lookup_query(email: Seq<char>)
    ensures
        query_for(Some(email_lookup_filters(email))) == seq![(QueryField::Email.name_spec(), in_condition(seq![email]))],
        effective_limit_spec(single_result_page()) == 1,
{
    let fs = email_lookup_filters(email);
    assert(fs.drop_last() =~= Seq::<UserFilterView>::empty());
    assert(apply_filters(fs.drop_last()) == Seq::<EntryView>::empty());
    assert(apply_filters(fs) =~= seq![(QueryField::Email.name_spec(), in_condition(seq![email]))]);
}

} // verus!
