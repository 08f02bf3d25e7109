//! The two handlers.

pub mod argon2;
pub mod scrypt;
