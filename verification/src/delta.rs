use vstd::prelude::*;

verus! {

/// What one new reading of a cumulative statistic does to the entry that the
/// delta table keeps for it.
#[derive(Debug, Clone, Copy, PartialEq, Eq)]
pub enum DeltaStep {
    /// There was no earlier reading: the entry starts from this one, with delta
    /// and rate zero, not marked updated.
    Start,
    /// The reading carries the timestamp of the last one: the entry keeps its
    /// values and is marked not updated.
    Repeat,
    /// The value went down, so the statistics were reset: the entry starts over
    /// from this reading, with delta and rate zero, not marked updated.
    Reset,
    /// A later reading: the delta is the difference of the values, taken over
    /// `elapsed_ms` milliseconds, and the entry is marked updated.
    Advance { elapsed_ms: i64 },
}

/// The delta table: for each cumulative statistic, the last reading and the
/// change since the one before.
pub struct DeltaTable {}

/// The step for a reading at `timestamp` (milliseconds) after the last reading
/// at `last_timestamp`, where `value_decreased` tells whether the new value is
/// below the last one.
pub open spec fn delta_step(last_timestamp: Option<i64>, timestamp: i64, value_decreased: bool) -> DeltaStep {
    match last_timestamp {
        None => DeltaStep::Start,
        Some(last) => if timestamp == last {
            DeltaStep::Repeat
        } else if value_decreased {
            DeltaStep::Reset
        } else {
            DeltaStep::Advance { elapsed_ms: (timestamp - last) as i64 }
        },
    }
}

impl DeltaTable {
    /// Decides what a new reading does to the entry of its statistic.
    pub fn next_step(last_timestamp: Option<i64>, timestamp: i64, value_decreased: bool) -> (r:
        DeltaStep)
        requires
            last_timestamp matches Some(last) ==> i64::MIN <= timestamp - last <= i64::MAX,
        ensures
            r == delta_step(last_timestamp, timestamp, value_decreased),
    {
        match last_timestamp {
            None => DeltaStep::Start,
            Some(last) => {
                if timestamp == last {
                    DeltaStep::Repeat
                } else if value_decreased {
                    DeltaStep::Reset
                } else {
                    DeltaStep::Advance { elapsed_ms: timestamp - last }
                }
            },
        }
    }
}

} // verus!
