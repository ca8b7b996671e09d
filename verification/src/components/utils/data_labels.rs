use vstd::prelude::*;

verus! {

/// How the time axis of a chart is labelled.
#[derive(PartialEq, Eq, Structural, Clone, Copy, Debug)]
pub enum TimeScale {
    Relative,
    Absolute,
}

/// Labels for the time axis of a chart.
pub struct DataLabels {
    pub time_scale: TimeScale,
    pub time_last_refresh: u64,
}

impl DataLabels {
    pub fn new() -> (r: Self)
        ensures
            r.time_scale == TimeScale::Relative,
            r.time_last_refresh == 0,
    {
        Self { time_scale: TimeScale::Relative, time_last_refresh: 0 }
    }

    /// Labels a window of `window_len` samples `window_offset` samples back from
    /// `current_time`; no labels are produced yet.
    pub fn labels(&self, current_time: u64, window_offset: usize, window_len: usize, refresh_rate: u64) {
    }
}

} // verus!
