//! Credentials and session tokens: salted password hashes, per-user keyed
//! expiring tokens, the password-reset code flow and the session check on requests.

pub mod codec;
pub mod credential;
pub mod forms;
pub mod handlers;
pub mod session;
pub mod store;
pub mod user;
