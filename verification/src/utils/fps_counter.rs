//! A counter of frames, from which a frame rate is reported at intervals.

use vstd::prelude::*;

verus! {

#[verifier::external_type_specification]
#[verifier::external_body]
pub struct ExInstant(std::time::Instant);

/// Calls `Instant::now`. Nothing is stated of the clock.
#[verifier::external_body]
fn instant_now() -> std::time::Instant {
    std::time::Instant::now()
}

/// Calls `Instant::elapsed`. Nothing is stated of the clock.
#[verifier::external_body]
fn instant_elapsed(start: &std::time::Instant) -> core::time::Duration {
    start.elapsed()
}

/// Calls `Duration::as_nanos`.
#[verifier::external_body]
fn duration_nanos(span: &core::time::Duration) -> u128 {
    span.as_nanos()
}

/// What a report is computed from: the frames counted in a period and the
/// length of that period in nanoseconds. The rate is the first divided by the
/// second.
#[derive(Copy, Clone, Debug, PartialEq, Eq, Structural)]
pub struct FpsSample {
    pub frames: usize,
    pub elapsed_nanos: u128,
}

/// A frame counter. Its view is the number of frames counted in the running
/// period.
pub struct FpsCounter {
    start_ts: std::time::Instant,
    total_frames: usize,
}

impl View for FpsCounter {
    type V = usize;

    closed spec fn view(&self) -> usize {
        self.total_frames
    }
}

/// Whether a period of `period_secs` seconds is over once `elapsed_nanos`
/// nanoseconds have passed.
pub open spec fn period_over(elapsed_nanos: u128, period_secs: u64) -> bool {
    elapsed_nanos > period_secs * 1_000_000_000
}

impl FpsCounter {
    /// A counter whose first period starts now, with no frame counted.
    pub fn new() -> (r: Self)
        ensures
            r@ == 0,
    {
        FpsCounter { start_ts: instant_now(), total_frames: 0 }
    }

    /// Closes the running period if it is over after `elapsed_nanos`
    /// nanoseconds: the frames counted are handed out and the count starts
    /// again at zero. Otherwise nothing changes.
    pub fn report_after(&mut self, elapsed_nanos: u128, period_secs: u64) -> (r: Option<FpsSample>)
        ensures
            period_over(elapsed_nanos, period_secs) ==> r == Some(
                FpsSample { frames: old(self)@, elapsed_nanos },
            ) && final(self)@ == 0,
            !period_over(elapsed_nanos, period_secs) ==> r.is_none() && final(self)@ == old(self)@,
    {
        let period: u128 = period_secs as u128;
        if elapsed_nanos > period * 1_000_000_000 {
            let sample = FpsSample { frames: self.total_frames, elapsed_nanos };
            self.total_frames = 0;
            Some(sample)
        } else {
            None
        }
    }

    /// Reads the clock and reports if the running period has lasted longer
    /// than `period_secs` seconds; the next period then starts now.
    pub fn report_fps(&mut self, period_secs: u64) -> (r: Option<FpsSample>)
        ensures
            match r {
                Some(sample) => sample.frames == old(self)@ && final(self)@ == 0 && period_over(
                    sample.elapsed_nanos,
                    period_secs,
                ),
                None => final(self)@ == old(self)@,
            },
    {
        let elapsed = instant_elapsed(&self.start_ts);
        let r = self.report_after(duration_nanos(&elapsed), period_secs);
        if r.is_some() {
            self.start_ts = instant_now();
        }
        r
    }

    /// Counts one frame. The count must have room for it.
    pub fn update(&mut self)
        requires
            old(self)@ < usize::MAX,
        ensures
            final(self)@ == old(self)@ + 1,
    {
        self.total_frames = self.total_frames + 1;
    }
}

impl Default for FpsCounter {
    fn default() -> (r: Self)
        ensures
            r@ == 0,
    {
        FpsCounter::new()
    }
}

} // verus!
