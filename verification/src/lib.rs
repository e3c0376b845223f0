//! A store of short text fortunes keyed by id, the rules by which it is kept in
//! step with an optional external cache, and the replies that a web front end
//! and back end give for each outcome.

pub mod decimal;
pub mod fortune;
pub mod frontend;
pub mod laws;
pub mod random;
pub mod redis_client;
pub mod reply;
pub mod service;
pub mod store;
pub mod utils;
