//! Password hashing, session tokens, the session guard and the bootstrap of
//! the first account, with their contracts.
pub mod error;
pub mod token;
pub mod credential;
pub mod session;
pub mod bootstrap;
pub mod store;
