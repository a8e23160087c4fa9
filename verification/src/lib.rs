//! Session authentication for a username/password web application:
//! password records, signed expiring session tokens, the extraction of an
//! identity from a request's stored token, and the error taxonomy the
//! three share.

pub mod auth;
pub mod db;
pub mod router;
pub mod utils;
