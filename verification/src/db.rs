use vstd::prelude::*;

use crate::error::FactorioopsError;
use crate::ids::{UserId, ulid_text};
use crate::models::{DbUser, PaginationOptions, UserFilter, DEFAULT_PAGE_LIMIT};
use crate::query::{UserQuery, filters_view, query_for};

verus! {

/// The page limit that a listing uses: the one given, or 50.
pub open spec fn effective_limit_spec(pagination: Option<PaginationOptions>) -> i64 {
    match pagination {
        Some(p) => match p.limit {
            Some(l) => l,
            None => DEFAULT_PAGE_LIMIT,
        },
        None => DEFAULT_PAGE_LIMIT,
    }
}

/// Listing with the default pagination, with pagination that sets no limit,
/// or with no pagination at all, returns pages of the same size: 50.
pub proof fn lemma_default_page_limit()
    ensures
        effective_limit_spec(Some(PaginationOptions { limit: Some(DEFAULT_PAGE_LIMIT) }))
            == effective_limit_spec(None),
        effective_limit_spec(Some(PaginationOptions { limit: None })) == effective_limit_spec(None),
        effective_limit_spec(None) == 50,
{
}

/// A limit that is given is used as it is, whatever its value; only a
/// missing limit (or missing pagination) is replaced, by 50.
pub proof fn lemma_given_limit_kept(l: i64)
    ensures
        effective_limit_spec(Some(PaginationOptions { limit: Some(l) })) == l,
        effective_limit_spec(Some(PaginationOptions { limit: None })) == 50,
        effective_limit_spec(None) == 50,
{
}

/// The page limit that a listing uses: the one given, or 50.
pub fn effective_limit(pagination: &Option<PaginationOptions>) -> (limit: i64)
    ensures
        limit == effective_limit_spec(*pagination),
        match *pagination {
            Some(PaginationOptions { limit: Some(l) }) => limit == l,
            _ => limit == 50,
        },
{
    match pagination {
        Some(p) => match p.limit {
            Some(l) => l,
            None => DEFAULT_PAGE_LIMIT,
        },
        None => DEFAULT_PAGE_LIMIT,
    }
}

/// A request to the user collection: the query document and the maximum
/// number of users to return, which is positive.
#[derive(Debug)]
pub struct UserListQuery {
    pub filter: UserQuery,
    pub limit: i64,
}

/// The request that listing users with these filters and this pagination
/// sends to the user collection. A page limit of 0 or less admits no user,
/// so no request is needed and the page is empty (`None`); the collection
/// itself would read 0 as "no limit".
pub fn list_users_query(
    filters: &Option<Vec<UserFilter>>,
    pagination: &Option<PaginationOptions>,
) -> (q: Option<UserListQuery>)
    ensures
        q is None <==> effective_limit_spec(*pagination) <= 0,
        q matches Some(lq) ==> lq.filter.wf() && lq.filter@ == query_for(filters_view(*filters))
            && lq.limit == effective_limit_spec(*pagination) && lq.limit > 0,
        match *pagination {
            Some(PaginationOptions { limit: Some(l) }) => l > 0 ==> (q matches Some(lq) && lq.limit
                == l),
            _ => q matches Some(lq) && lq.limit == 50,
        },
{
    let limit = effective_limit(pagination);
    if limit <= 0 {
        None
    } else {
        Some(UserListQuery { filter: UserQuery::from_filters(filters), limit })
    }
}

/// The message of the error given when an update names no user.
pub open spec fn update_without_id_message() -> Seq<char> {
    "User ID is required for update"@
}

/// The message of the error given when a deletion names no user.
pub open spec fn delete_without_id_message() -> Seq<char> {
    "User ID is required for deletion"@
}

/// The value that selects a user by identifier (`{ "id": text }`), or the
/// given error for the nil identifier.
fn id_selector(id: UserId, message: &str) -> (res: Result<String, FactorioopsError>)
    ensures
        id.bits == 0 ==> (res matches Err(FactorioopsError::Other(m)) && m@ == message@),
        id.bits != 0 ==> (res matches Ok(text) && text@ == ulid_text(id.bits)),
{
    if id.is_nil() {
        Err(FactorioopsError::Other(String::from_str(message)))
    } else {
        Ok(id.to_text())
    }
}

/// The identifier text that selects the stored user to replace with `user`;
/// an error for a user without identifier (the nil one).
pub fn update_user_selector(user: &DbUser) -> (res: Result<String, FactorioopsError>)
    ensures
        user.id.bits == 0 ==> (res matches Err(FactorioopsError::Other(m)) && m@
            == update_without_id_message()),
        user.id.bits != 0 ==> (res matches Ok(text) && text@ == ulid_text(user.id.bits)),
{
    id_selector(user.id, "User ID is required for update")
}

/// The identifier text that selects the stored user to delete; an error for
/// the nil identifier.
pub fn delete_user_selector(id: UserId) -> (res: Result<String, FactorioopsError>)
    ensures
        id.bits == 0 ==> (res matches Err(FactorioopsError::Other(m)) && m@
            == delete_without_id_message()),
        id.bits != 0 ==> (res matches Ok(text) && text@ == ulid_text(id.bits)),
{
    id_selector(id, "User ID is required for deletion")
}

/// Where the users are stored: a database and a collection in it.
#[derive(Debug)]
pub struct UserCollection {
    pub database: String,
    pub collection: String,
}

/// The message of the error given when the client names no database.
pub open spec fn missing_database_message() -> Seq<char> {
    "MongoDB client must have a default database set"@
}

/// The name of the collection that holds the users.
pub open spec fn users_collection_name() -> Seq<char> {
    "users"@
}

/// Where a store keeps its users, given the client's default database: the
/// `users` collection of that database; an error where the client has none.
pub fn user_collection(default_database: Option<String>) -> (res: Result<
    UserCollection,
    FactorioopsError,
>)
    ensures
        match default_database {
            Some(db) => res matches Ok(c) && c.database@ == db@ && c.collection@
                == users_collection_name(),
            None => res matches Err(FactorioopsError::Other(m)) && m@ == missing_database_message(),
        },
{
    match default_database {
        Some(db) => Ok(UserCollection { database: db, collection: String::from_str("users") }),
        None => Err(
            FactorioopsError::Other(
                String::from_str("MongoDB client must have a default database set"),
            ),
        ),
    }
}

/// A length of time, as whole seconds and the nanoseconds beyond them.
#[derive(Debug, Clone, Copy, PartialEq, Eq, Structural)]
pub struct TimeSpan {
    pub secs: u64,
    pub nanos: u32,
}

impl TimeSpan {
    /// A span of whole seconds.
    pub fn from_secs(secs: u64) -> (t: TimeSpan)
        ensures
            t == (TimeSpan { secs, nanos: 0 }),
    {
        TimeSpan { secs, nanos: 0 }
    }
}

/// The timeouts of a database client that the store sets when the
/// connection string leaves them out.
#[derive(Debug, Clone, Copy, PartialEq, Eq, Structural)]
pub struct ClientTimeouts {
    pub connect_timeout: Option<TimeSpan>,
    pub max_idle_time: Option<TimeSpan>,
    pub server_selection_timeout: Option<TimeSpan>,
}

/// Seconds of the default connect timeout.
pub const DEFAULT_CONNECT_TIMEOUT_SECS: u64 = 5;

/// Seconds of the default maximum idle time.
pub const DEFAULT_MAX_IDLE_TIME_SECS: u64 = 10;

/// Seconds of the default server selection timeout.
pub const DEFAULT_SERVER_SELECTION_TIMEOUT_SECS: u64 = 5;

/// A given timeout, or the default where none is given.
pub open spec fn or_default(given: Option<TimeSpan>, default_secs: u64) -> Option<TimeSpan> {
    match given {
        Some(t) => Some(t),
        None => Some(TimeSpan { secs: default_secs, nanos: 0 }),
    }
}

/// A timeout that is given is kept exactly as it is, whatever its length;
/// a missing one becomes the default number of whole seconds.
pub proof fn lemma_given_timeout_kept(t: TimeSpan, default_secs: u64)
    ensures
        or_default(Some(t), default_secs) == Some(t),
        or_default(None, default_secs) == Some(TimeSpan { secs: default_secs, nanos: 0 }),
{
}

/// After the defaults are applied every timeout is set, and applying them
/// again changes nothing.
pub proof fn lemma_defaults_settle(given: Option<TimeSpan>, default_secs: u64)
    ensures
        or_default(given, default_secs) is Some,
        or_default(or_default(given, default_secs), default_secs) == or_default(given, default_secs),
{
}

impl ClientTimeouts {
    /// The timeouts with each one left out set to its default: 5 s to
    /// connect, 10 s of idle time, 5 s to select a server.
    pub fn with_defaults(self) -> (res: ClientTimeouts)
        ensures
            res.connect_timeout == or_default(self.connect_timeout, DEFAULT_CONNECT_TIMEOUT_SECS),
            res.max_idle_time == or_default(self.max_idle_time, DEFAULT_MAX_IDLE_TIME_SECS),
            res.server_selection_timeout == or_default(
                self.server_selection_timeout,
                DEFAULT_SERVER_SELECTION_TIMEOUT_SECS,
            ),
            self.connect_timeout is Some ==> res.connect_timeout == self.connect_timeout,
            self.max_idle_time is Some ==> res.max_idle_time == self.max_idle_time,
            self.server_selection_timeout is Some ==> res.server_selection_timeout
                == self.server_selection_timeout,
            self.connect_timeout is None ==> res.connect_timeout == Some(
                TimeSpan { secs: 5, nanos: 0 },
            ),
            self.max_idle_time is None ==> res.max_idle_time == Some(TimeSpan { secs: 10, nanos: 0 }),
            self.server_selection_timeout is None ==> res.server_selection_timeout == Some(
                TimeSpan { secs: 5, nanos: 0 },
            ),
    {
        let mut res = self;
        if res.connect_timeout.is_none() {
            res.connect_timeout = Some(TimeSpan::from_secs(DEFAULT_CONNECT_TIMEOUT_SECS));
        }
        if res.max_idle_time.is_none() {
            res.max_idle_time = Some(TimeSpan::from_secs(DEFAULT_MAX_IDLE_TIME_SECS));
        }
        if res.server_selection_timeout.is_none() {
            res.server_selection_timeout = Some(
                TimeSpan::from_secs(DEFAULT_SERVER_SELECTION_TIMEOUT_SECS),
            );
        }
        res
    }
}

} // verus!
