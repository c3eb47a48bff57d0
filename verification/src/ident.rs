//! Fresh identifiers and timestamps.
//!
//! Both values are nondeterministic by nature, so nothing is promised of
//! them: every function that uses one states what holds whatever value
//! came back.

use vstd::prelude::*;

verus! {

/// Relies on `uuid::Uuid::new_v4`: a freshly generated random 128-bit
/// identifier. The value depends on the process's randomness source, so
/// nothing is promised of it.
#[verifier::external_body]
pub fn mint_id() -> u128 {
    uuid::Uuid::new_v4().as_u128()
}

/// Relies on `chrono::Utc::now`: the current wall-clock time, in
/// microseconds since the Unix epoch. The value depends on the clock, so
/// nothing is promised of it.
#[verifier::external_body]
pub fn now_micros() -> i64 {
    chrono::Utc::now().timestamp_micros()
}

} // verus!
