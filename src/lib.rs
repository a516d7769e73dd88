//! Request-handling core of a small web service: the credential guard, the
//! shared text cell, the script bridge's output handling and the mapping of
//! user-collection results to response payloads.

pub mod bridge;
pub mod guard;
pub mod state;
pub mod users;
