//! The sensor sampling task, one acquisition at a time.
//!
//! The task itself only waits: for the sensor, then for the interval. What
//! happens to the gauge in between is decided here.

use crate::gauge::Gauge;
use vstd::prelude::*;

verus! {

/// Seconds between two acquisitions. There is no backoff and no jitter.
pub const SAMPLE_INTERVAL_SECS: u64 = 2;

/// Why an acquisition gave no reading.
#[derive(Clone, Copy, Debug, PartialEq, Eq, Structural)]
pub enum SensorFault {
    /// The converter reported a failed conversion.
    ConversionFailed,
}

/// What the sampling task does once an acquisition has been recorded.
#[derive(Clone, Copy, Debug, PartialEq, Eq, Structural)]
pub struct SampleStep {
    /// The acquisition failed and is to be reported.
    pub warn: bool,
    /// How long to sleep before the next acquisition.
    pub sleep_secs: u64,
}

/// What the gauge holds once `reading` has been recorded on a gauge that
/// held `before`: the reading, or what it held if there is none.
pub open spec fn recorded(before: u16, reading: Result<u16, SensorFault>) -> u16 {
    match reading {
        Ok(value) => value,
        Err(_) => before,
    }
}

/// Records the outcome of one acquisition. A reading is published; a fault
/// leaves the gauge as it was, is reported, and is not retried before the
/// interval has passed.
pub fn record_reading(gauge: &mut Gauge, reading: Result<u16, SensorFault>) -> (step: SampleStep)
    ensures
        final(gauge)@ == recorded(old(gauge)@, reading),
        reading is Err ==> final(gauge)@ == old(gauge)@,
        step.warn == (reading is Err),
        step.sleep_secs == SAMPLE_INTERVAL_SECS,
{
    let warn = match reading {
        Ok(value) => {
            gauge.publish(value);
            false
        },
        Err(_) => true,
    };
    SampleStep { warn, sleep_secs: SAMPLE_INTERVAL_SECS }
}

/// What a gauge that held `start` holds after the acquisitions `readings`
/// were recorded on it in order.
pub open spec fn after_readings(start: u16, readings: Seq<Result<u16, SensorFault>>) -> u16
    decreases readings.len(),
{
    if readings.len() == 0 {
        start
    } else {
        recorded(after_readings(start, readings.drop_last()), readings.last())
    }
}

/// Failed acquisitions never change the gauge: however many of them follow
/// one another, the gauge holds what it held before the first.
pub proof fn lemma_faults_keep_value(start: u16, readings: Seq<Result<u16, SensorFault>>)
    requires
        forall|i: int| 0 <= i < readings.len() ==> readings[i] is Err,
    ensures
        after_readings(start, readings) == start,
    decreases readings.len(),
{
    if readings.len() > 0 {
        lemma_faults_keep_value(start, readings.drop_last());
    }
}

} // verus!
