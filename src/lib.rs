//! Authentication and session broker of a bookmark service: OpenID Connect
//! logins become sessions in a session table, and every protected operation
//! resolves its caller through a session cookie or an API key.

pub mod error;
pub mod principal;
pub mod sessions;
pub mod secrets;
pub mod states;
pub mod exchange;
pub mod apikeys;
pub mod credentials;
pub mod paging;
