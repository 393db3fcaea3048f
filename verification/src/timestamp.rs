//! Conversion of system clock values to plain epoch seconds.

use vstd::prelude::*;

verus! {

#[verifier::external_type_specification]
#[verifier::external_body]
pub struct ExSystemTime(std::time::SystemTime);

/// Epoch-second timestamps.
pub struct Timestamp {}

impl Timestamp {
    /// Relies on std::time::SystemTime::duration_since: the span between
    /// the epoch and the given time, whole seconds of it; a time before the
    /// epoch yields zero.  What the clock held cannot be stated here.
    #[verifier::external_body]
    pub fn from_system_time(system_time: std::time::SystemTime) -> u64 {
        system_time.duration_since(std::time::UNIX_EPOCH).unwrap_or_default().as_secs()
    }
}

} // verus!
