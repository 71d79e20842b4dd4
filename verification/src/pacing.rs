//! Decides which decoded frames are rendered and how long to sleep after one.
//!
//! The pacer counts decoded frames and renders exactly one of every
//! `skip_ratio`; between rendered frames it asks for a sleep that tops the
//! elapsed render time up to a target interval derived from the source frame
//! rate. The caller performs the actual sleep and measures the elapsed time;
//! the pacer only computes the decisions, so every decision is checked here.

use vstd::prelude::*;

verus! {

/// Nanoseconds that should separate two rendered frames: `skip_ratio` source
/// frames at `fps` frames per second, rounded to the nearest nanosecond
/// (halves up).
pub open spec fn target_interval_ns(skip_ratio: int, fps: int) -> int {
    (2 * skip_ratio * 1_000_000_000 + fps) / (2 * fps)
}

/// Nanoseconds still to wait when `elapsed_ns` have passed of a
/// `target_ns`-long interval; zero once the interval is already over.
pub open spec fn spec_sleep_budget_ns(target_ns: int, elapsed_ns: int) -> int {
    if elapsed_ns < target_ns {
        target_ns - elapsed_ns
    } else {
        0
    }
}

/// Per-stream pacing state: how many frames were decoded so far, how many
/// decoded frames correspond to one rendered frame, and the target interval
/// between rendered frames.
#[derive(Clone, Copy, Debug, PartialEq, Eq, Structural)]
pub struct PacingState {
    pub frames_seen: u64,
    pub skip_ratio: u32,
    pub target_interval_ns: u64,
}

impl PacingState {
    /// A pacing state is usable only with a positive skip ratio; rendering
    /// one of every zero frames is meaningless.
    pub open spec fn wf(self) -> bool {
        self.skip_ratio >= 1
    }

    /// Builds the pacing state for a stream of `fps` frames per second from
    /// which one of every `skip_ratio` decoded frames is rendered.
    pub fn new(skip_ratio: u32, fps: u32) -> (s: PacingState)
        requires
            skip_ratio >= 1,
            fps >= 1,
        ensures
            s.wf(),
            s.frames_seen == 0,
            s.skip_ratio == skip_ratio,
            s.target_interval_ns == target_interval_ns(skip_ratio as int, fps as int),
    {
        let interval: u64 = (2 * (skip_ratio as u64) * 1_000_000_000 + (fps as u64)) / (2 * (fps
            as u64));
        PacingState { frames_seen: 0, skip_ratio, target_interval_ns: interval }
    }

    /// Counts one decoded frame and decides whether it is rendered: exactly
    /// every `skip_ratio`-th decoded frame is, counting from one.
    pub fn note_frame(&mut self) -> (render: bool)
        requires
            old(self).wf(),
            old(self).frames_seen < u64::MAX,
        ensures
            final(self).wf(),
            final(self).frames_seen == old(self).frames_seen + 1,
            final(self).skip_ratio == old(self).skip_ratio,
            final(self).target_interval_ns == old(self).target_interval_ns,
            render <==> (old(self).frames_seen + 1) % (old(self).skip_ratio as int) == 0,
    {
        self.frames_seen = self.frames_seen + 1;
        self.frames_seen % (self.skip_ratio as u64) == 0
    }

    /// How long to sleep after a rendered frame took `elapsed_ns`: the rest
    /// of the target interval, or nothing when the frame already overran it.
    pub fn sleep_budget_ns(&self, elapsed_ns: u64) -> (ns: u64)
        ensures
            ns == spec_sleep_budget_ns(self.target_interval_ns as int, elapsed_ns as int),
    {
        if elapsed_ns < self.target_interval_ns {
            self.target_interval_ns - elapsed_ns
        } else {
            0
        }
    }
}

} // verus!
