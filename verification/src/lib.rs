//! Login protection for a small multi-user server: roles, the password policy
//! and hashing, login throttling, the decisions behind an authenticated
//! request, and the set-up of the first administrator.
//!
//! Everything here is a decision or a computation. Reading requests, talking to
//! the store, waiting and logging are left to the program around it.

pub mod auth;
pub mod clock;
pub mod db;
pub mod text;
