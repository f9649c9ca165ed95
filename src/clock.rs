use vstd::prelude::*;

verus! {

/// Milliseconds in one hour; timestamps of this library count milliseconds
/// since the Unix epoch.
pub const MILLIS_PER_HOUR: i64 = 3_600_000;

/// Relies on chrono's `From<SystemTime> for DateTime<Utc>` and
/// `DateTime::timestamp_millis`: the system's wall-clock time as milliseconds
/// since the Unix epoch, negative for a clock set before it. Nothing is known of
/// the value returned.
#[verifier::external_body]
pub(crate) fn utc_now_millis() -> (r: i64) {
    chrono::DateTime::<chrono::Utc>::from(std::time::SystemTime::now()).timestamp_millis()
}

} // verus!
