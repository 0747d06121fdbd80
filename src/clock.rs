//! Calls for the two values each reading takes from its surroundings: the
//! current time and a fresh identifier.

use vstd::prelude::*;

verus! {

/// Relies on chrono's `Utc::now` and `DateTime::timestamp`: the current
/// time in whole seconds since the Unix epoch. Nothing is promised of its
/// value.
#[verifier::external_body]
pub(crate) fn now_timestamp() -> (r: i64) {
    chrono::Utc::now().timestamp()
}

/// Relies on uuid's `Uuid::new_v4` and its `Display`: a random version-4
/// identifier written in the hyphenated form of 36 characters.
#[verifier::external_body]
pub(crate) fn fresh_sensor_id() -> (r: String)
    ensures
        r@.len() == 36,
{
    uuid::Uuid::new_v4().to_string()
}

} // verus!
