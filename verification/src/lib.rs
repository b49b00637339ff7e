//! Verified core of a blueprint-sharing service: the user model, the
//! queries sent to the user store, and the login decision.

pub mod auth;
pub mod db;
pub mod error;
pub mod ids;
pub mod models;
pub mod passwords;
pub mod query;
pub mod time;
pub mod user_store;
