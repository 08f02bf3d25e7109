//! Password hashing behind two stateless handlers, Argon2 and scrypt.
//!
//! Each handler validates the caller's parameters, provisions a salt,
//! derives the key and answers with the encoded hash string or with an
//! error that says whose fault it was: the caller's, where the input is
//! turned down before any derivation begins, or the server's, where the
//! derivation itself fails.
//!
//! The key derivation functions, the salt strings and the PHC string format
//! are those of the `argon2`, `scrypt` and `password-hash` crates. What this
//! library adds is the order of the checks, the messages and statuses, the
//! defaults and the cost policy, each with its contract.

pub mod policy;
pub mod response;
pub mod routes;
pub mod salt;
