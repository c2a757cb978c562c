//! Verified core of a multi-user content service.
//!
//! The crate covers the subsystems with real invariants: password hashing
//! and verification, issuance and verification of expiring identity tokens,
//! request interception that resolves a token to an identity, construction
//! of parameterized partial-update statements, and the account/article
//! store with its uniqueness and ownership rules.  Transport, configuration
//! loading and the HTTP surface live outside this crate and hand plain
//! values in.

pub mod articles;
pub mod errors;
pub mod jwt;
pub mod middleware;
pub mod models;
pub mod password;
pub mod store;
pub mod update;
