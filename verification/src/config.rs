use vstd::prelude::*;

use crate::load::LoadAvg;

verus! {

/// The configuration of one wait, fixed before the controller runs and
/// never changed by it. Durations are plain counts: the poll interval in
/// milliseconds, the two time bounds in seconds.
#[derive(Clone, Copy, PartialEq, Eq, Structural, Debug)]
pub struct WaitConfig {
    /// The load-average boundary the samples are compared against.
    pub threshold: LoadAvg,
    /// Off: wait while the sample is above the threshold (for load to drop).
    /// On: wait while the sample is below it (for load to rise).
    pub reverse: bool,
    /// Sleep between consecutive samples, in milliseconds.
    pub sleep_millis: u64,
    /// Upper bound on elapsed active-sampling time, in seconds.
    pub max_time: u64,
    /// Mandatory delay before the first sample, in seconds; not counted
    /// against `max_time`.
    pub min_time: u64,
}

impl WaitConfig {
    /// Builds a configuration from already-validated values.
    pub fn new(
        threshold: LoadAvg,
        reverse: bool,
        sleep_millis: u64,
        max_time: u64,
        min_time: u64,
    ) -> (r: WaitConfig)
        ensures
            r.threshold == threshold,
            r.reverse == reverse,
            r.sleep_millis == sleep_millis,
            r.max_time == max_time,
            r.min_time == min_time,
    {
        WaitConfig { threshold, reverse, sleep_millis, max_time, min_time }
    }
}

/// The default threshold for a host with `cpus` logical processors: a load
/// average equal to the processor count, saturated at the largest value the
/// fixed-point representation can hold.
pub open spec fn default_threshold_milli(cpus: int) -> int {
    if cpus * 1000 <= i64::MAX {
        cpus * 1000
    } else {
        i64::MAX as int
    }
}

/// Relies on num_cpus::get: the number of logical CPUs of the current
/// system, which its documentation promises is always at least 1.
#[verifier::external_body]
fn logical_cpus() -> (r: usize)
    ensures
        r >= 1,
{
    num_cpus::get()
}

/// The threshold a host with `cpus` logical processors gets by default.
pub fn threshold_for_cpus(cpus: usize) -> (r: LoadAvg)
    ensures
        r.value() == default_threshold_milli(cpus as int),
{
    let c = cpus as u64;
    if c <= 9_223_372_036_854_775u64 {
        LoadAvg::from_milli((c * 1000) as i64)
    } else {
        LoadAvg::from_milli(i64::MAX)
    }
}

/// The default threshold on this host: one unit of load per logical CPU.
pub fn default_threshold() -> (r: LoadAvg)
    ensures
        r.value() >= 1000,
{
    let cpus = logical_cpus();
    let r = threshold_for_cpus(cpus);
    r
}

} // verus!
