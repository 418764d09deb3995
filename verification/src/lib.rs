//! A credential-hashing library: it derives a salted, memory-hard hash from a
//! user-supplied PIN and later verifies a candidate PIN against a stored hash.
//!
//! The two operations, [`hash`](hasher::hash) and [`verify`](hasher::verify),
//! are stateless and independent; the encoded hash that `hash` returns is
//! self-describing (algorithm identifier, cost parameters, salt and digest in
//! one text string), so `verify` needs no side information.

pub mod errors;
pub mod hasher;
pub mod phc;

pub use errors::HashingError;
pub use hasher::hash;
pub use hasher::verify;
