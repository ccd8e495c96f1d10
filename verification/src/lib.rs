//! A verified core for a birthday-greeting service.
//!
//! The library validates usernames and dates of birth, stores birthday
//! records, computes the "days until next birthday" message, and models the
//! per-request middleware bookkeeping (request-id propagation, metrics
//! labels). Everything here is verified; the surrounding HTTP plumbing is
//! expected to hand these functions plain values.

pub mod api;
pub mod birthday;
pub mod clock;
pub mod date;
pub mod decimal;
pub mod middleware;
pub mod store;
pub mod validation;
