//! A minimal personal-journal backend core: account registration and login
//! over salted password hashes, bearer-token sessions, and journal entries
//! owned by accounts, all over an in-memory document store with verified
//! invariants (unique emails, unique identifiers, entry ownership, monotonic
//! entry timestamps).

pub mod errors;
pub mod store;
pub mod identity;
pub mod journal;
pub mod token;
pub mod api;
pub mod laws;
