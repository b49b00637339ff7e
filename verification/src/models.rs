use vstd::prelude::*;

use crate::error::FactorioopsError;
use crate::ids::{UserId, ulid_timestamp};
use crate::passwords::{argon2_hash_password, argon2_verifies, phc_normal_form, phc_parse};
use crate::time::UtcTimestamp;

verus! {

/// The number of items in a page when no limit is given.
pub const DEFAULT_PAGE_LIMIT: i64 = 50;

/// Options for paginating results from the database.
#[derive(Debug, Clone, Copy, PartialEq, Eq, Structural)]
pub struct PaginationOptions {
    /// The maximum number of items to return in a single page. If not
    /// specified, defaults to 50.
    pub limit: Option<i64>,
}

impl Default for PaginationOptions {
    fn default() -> (res: Self)
        ensures
            res.limit == Some(DEFAULT_PAGE_LIMIT),
    {
        PaginationOptions { limit: Some(DEFAULT_PAGE_LIMIT) }
    }
}

/// A password hash in its textual (PHC string) form.
#[derive(Debug)]
pub struct PasswordHashString(pub String);

impl PasswordHashString {
    /// Parses a PHC hash string; the parse error's text where it is not one.
    pub fn parse(text: &str) -> (res: Result<Self, String>)
        ensures
            res matches Ok(hash) ==> phc_normal_form(text@) == Some(hash.0@),
            res is Err <==> phc_normal_form(text@) is None,
    {
        match phc_parse(text) {
            Ok(normal) => Ok(PasswordHashString(normal)),
            Err(e) => Err(e),
        }
    }
}

impl Clone for PasswordHashString {
    fn clone(&self) -> (res: Self)
        ensures
            res.0@ == self.0@,
    {
        PasswordHashString(self.0.clone())
    }
}

/// A user as stored in the database.
#[derive(Debug)]
pub struct DbUser {
    pub id: UserId,
    pub username: String,
    pub password_hash: PasswordHashString,
    pub email: String,
}

/// The abstract value of a stored user.
pub struct DbUserView {
    pub id: u128,
    pub username: Seq<char>,
    pub password_hash: Seq<char>,
    pub email: Seq<char>,
}

impl View for DbUser {
    type V = DbUserView;

    open spec fn view(&self) -> DbUserView {
        DbUserView {
            id: self.id.bits,
            username: self.username@,
            password_hash: self.password_hash.0@,
            email: self.email@,
        }
    }
}

impl Clone for DbUser {
    fn clone(&self) -> (res: Self)
        ensures
            res@ == self@,
    {
        DbUser {
            id: self.id,
            username: self.username.clone(),
            password_hash: self.password_hash.clone(),
            email: self.email.clone(),
        }
    }
}

/// The message of the error given when hashing a password failed.
pub open spec fn hash_failure_message(reason: Seq<char>) -> Seq<char> {
    "Failed to hash password: "@ + reason
}

/// The creation time recorded in a user's identifier, in milliseconds since
/// the Unix epoch.
pub open spec fn created_at_millis(id: u128) -> i64 {
    ulid_timestamp(id) as i64
}

impl DbUser {
    /// A new user with a fresh identifier for the current time.
    pub fn new(username: String, password_hash: PasswordHashString, email: String) -> (user: Self)
        ensures
            user.username@ == username@,
            user.password_hash.0@ == password_hash.0@,
            user.email@ == email@,
    {
        DbUser { id: UserId::generate(), username, password_hash, email }
    }

    /// A new user with the password hashed (Argon2, random salt); a failed
    /// hashing is a security error. The stored hash verifies the password,
    /// and every password of at most `0x3FFF_FFFF` characters is hashed.
    pub fn create(username: String, password: String, email: String) -> (res: Result<
        Self,
        FactorioopsError,
    >)
        ensures
            res matches Ok(user) ==> user.username@ == username@ && user.email@ == email@
                && argon2_verifies(password@, user.password_hash.0@),
            password@.len() <= 0x3FFF_FFFF ==> res is Ok,
            res matches Err(e) ==> (e matches FactorioopsError::SecurityError(m) && exists|
                reason: Seq<char>,
            | m@ == #[trigger] hash_failure_message(reason)),
    {
        let hashed = match argon2_hash_password(password.as_str()) {
            Ok(hash) => Ok(PasswordHashString(hash)),
            Err(reason) => Err(reason),
        };
        DbUser::from_hash_outcome(username, hashed, email)
    }

    /// A new user from the outcome of hashing its password: the hash, or the
    /// reason the hashing failed, which becomes a security error.
    pub fn from_hash_outcome(
        username: String,
        hashed_password: Result<PasswordHashString, String>,
        email: String,
    ) -> (res: Result<Self, FactorioopsError>)
        ensures
            match hashed_password {
                Ok(hash) => res matches Ok(user) && user.username@ == username@
                    && user.password_hash.0@ == hash.0@ && user.email@ == email@,
                Err(reason) => res matches Err(FactorioopsError::SecurityError(m))
                    && m@ == hash_failure_message(reason@),
            },
    {
        match hashed_password {
            Ok(hash) => Ok(DbUser::new(username, hash, email)),
            Err(reason) => {
                let mut m = String::from_str("Failed to hash password: ");
                m.append(reason.as_str());
                Err(FactorioopsError::SecurityError(m))
            },
        }
    }

    /// When the user was created: the time recorded in its identifier.
    pub fn created_at(&self) -> (t: UtcTimestamp)
        ensures
            t.millis == created_at_millis(self.id.bits),
            0 <= t.millis < 0x1_0000_0000_0000i64,
    {
        let ms = self.id.timestamp_ms();
        UtcTimestamp::from_millis_or_epoch(ms as i64)
    }
}

/// A user whose identifier was made from a creation time (in milliseconds,
/// within the 48 bits a ULID holds) and 80 random bits reports that time as
/// its creation time.
pub proof fn lemma_created_at_of_parts(ms: u64, random: u128)
    requires
        ms < 0x1_0000_0000_0000u64,
        random < 0x1_0000_0000_0000_0000_0000u128,
    ensures
        ulid_timestamp((((ms as u128) << 80u128) | random)) == ms,
        created_at_millis((((ms as u128) << 80u128) | random)) == ms as i64,
{
    let m = ms as u128;
    assert(((m << 80u128) | random) >> 80u128 == m) by (bit_vector)
        requires
            m < 0x1_0000_0000_0000u128,
            random < 0x1_0000_0000_0000_0000_0000u128,
    ;
}

/// Creation times follow the identifiers' time bits: an identifier with an
/// earlier (or equal) timestamp reports an earlier (or equal) creation time.
pub proof fn lemma_created_at_monotonic(a: u128, b: u128)
    requires
        ulid_timestamp(a) <= ulid_timestamp(b),
    ensures
        created_at_millis(a) <= created_at_millis(b),
{
    assert((a >> 80u128) < 0x1_0000_0000_0000u128) by (bit_vector);
    assert((b >> 80u128) < 0x1_0000_0000_0000u128) by (bit_vector);
}

/// Criteria for listing users: each present list restricts a field to the
/// values in it.
#[derive(Debug)]
pub struct UserFilter {
    pub id: Option<Vec<UserId>>,
    pub username: Option<Vec<String>>,
    pub email: Option<Vec<String>>,
}

/// The abstract value of a filter.
pub struct UserFilterView {
    pub id: Option<Seq<u128>>,
    pub username: Option<Seq<Seq<char>>>,
    pub email: Option<Seq<Seq<char>>>,
}

impl View for UserFilter {
    type V = UserFilterView;

    open spec fn view(&self) -> UserFilterView {
        UserFilterView {
            id: match self.id {
                Some(ids) => Some(ids@.map_values(|u: UserId| u.bits)),
                None => None,
            },
            username: match self.username {
                Some(names) => Some(names.deep_view()),
                None => None,
            },
            email: match self.email {
                Some(emails) => Some(emails.deep_view()),
                None => None,
            },
        }
    }
}

} // verus!
