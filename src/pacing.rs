use vstd::prelude::*;

verus! {

/// Shortest tick interval, in milliseconds.
pub const MIN_TICK_MS: u64 = 16;

/// Longest tick interval, in milliseconds.
pub const MAX_TICK_MS: u64 = 200;

/// Target cost of one frame, in milliseconds.
pub const TARGET_FRAME_MS: u64 = 33;

/// Tick interval at start, in milliseconds.
pub const INITIAL_TICK_MS: u64 = 50;

/// Step up when a frame runs more than 10 ms over target.
pub const SLOW_STEP_MS: u64 = 10;

/// Step down when a frame runs more than 5 ms under target.
pub const FAST_STEP_MS: u64 = 5;

/// The interval after a frame that cost `frame` milliseconds.
pub open spec fn adjusted(interval: int, frame: int) -> int {
    if frame > TARGET_FRAME_MS + SLOW_STEP_MS {
        if interval + SLOW_STEP_MS > MAX_TICK_MS {
            MAX_TICK_MS as int
        } else {
            interval + SLOW_STEP_MS
        }
    } else if frame < TARGET_FRAME_MS - FAST_STEP_MS {
        if interval - FAST_STEP_MS < MIN_TICK_MS {
            MIN_TICK_MS as int
        } else {
            interval - FAST_STEP_MS
        }
    } else {
        interval
    }
}

/// The interval after `n` frames that each cost `frame` milliseconds.
pub open spec fn adjusted_n(interval: int, frame: int, n: nat) -> int
    decreases n,
{
    if n == 0 {
        interval
    } else {
        adjusted(adjusted_n(interval, frame, (n - 1) as nat), frame)
    }
}

pub open spec fn in_bounds(interval: int) -> bool {
    MIN_TICK_MS <= interval <= MAX_TICK_MS
}

/// Whatever the frame costs, the interval never leaves its bounds.
pub proof fn lemma_adjust_in_bounds(interval: int, frame: int, n: nat)
    requires
        in_bounds(interval),
    ensures
        in_bounds(adjusted_n(interval, frame, n)),
    decreases n,
{
    if n > 0 {
        lemma_adjust_in_bounds(interval, frame, (n - 1) as nat);
    }
}

/// Under a frame cost held above target + 10 ms the interval climbs by 10 ms
/// a frame to the ceiling, reaches it within 19 frames and stays there.
pub proof fn lemma_slow_frames_reach_ceiling(interval: int, frame: int, n: nat)
    requires
        in_bounds(interval),
        frame > TARGET_FRAME_MS + SLOW_STEP_MS,
    ensures
        adjusted_n(interval, frame, n) == if interval + 10 * n > MAX_TICK_MS {
            MAX_TICK_MS as int
        } else {
            interval + 10 * n
        },
        n >= 19 ==> adjusted_n(interval, frame, n) == MAX_TICK_MS,
    decreases n,
{
    if n > 0 {
        lemma_slow_frames_reach_ceiling(interval, frame, (n - 1) as nat);
    }
}

/// Under a frame cost held below target - 5 ms the interval falls by 5 ms a
/// frame to the floor, reaches it within 37 frames and stays there.
pub proof fn lemma_fast_frames_reach_floor(interval: int, frame: int, n: nat)
    requires
        in_bounds(interval),
        frame < TARGET_FRAME_MS - FAST_STEP_MS,
    ensures
        adjusted_n(interval, frame, n) == if interval - 5 * n < MIN_TICK_MS {
            MIN_TICK_MS as int
        } else {
            interval - 5 * n
        },
        n >= 37 ==> adjusted_n(interval, frame, n) == MIN_TICK_MS,
    decreases n,
{
    if n > 0 {
        lemma_fast_frames_reach_floor(interval, frame, (n - 1) as nat);
    }
}

/// The adaptive tick interval of the render loop.
pub struct PacingState {
    interval_ms: u64,
}

impl PacingState {
    pub closed spec fn interval(&self) -> int {
        self.interval_ms as int
    }

    pub open spec fn wf(&self) -> bool {
        in_bounds(self.interval())
    }

    pub fn new() -> (r: PacingState)
        ensures
            r.wf(),
            r.interval() == INITIAL_TICK_MS,
    {
        PacingState { interval_ms: INITIAL_TICK_MS }
    }

    pub fn interval_ms(&self) -> (r: u64)
        ensures
            r == self.interval(),
    {
        self.interval_ms
    }

    /// How long to wait for input, `elapsed_ms` after the last tick.
    pub fn wait_ms(&self, elapsed_ms: u64) -> (r: u64)
        ensures
            r == if elapsed_ms >= self.interval() {
                0
            } else {
                self.interval() - elapsed_ms
            },
    {
        if elapsed_ms >= self.interval_ms {
            0
        } else {
            self.interval_ms - elapsed_ms
        }
    }

    /// Whether a tick is due, `elapsed_ms` after the last one.
    pub fn tick_due(&self, elapsed_ms: u64) -> (r: bool)
        ensures
            r == (elapsed_ms >= self.interval()),
    {
        elapsed_ms >= self.interval_ms
    }

    /// Adapts the interval to the cost of the frame just finished.
    pub fn adjust(&mut self, frame_ms: u64)
        requires
            old(self).wf(),
        ensures
            final(self).wf(),
            final(self).interval() == adjusted(old(self).interval(), frame_ms as int),
    {
        if frame_ms > TARGET_FRAME_MS + SLOW_STEP_MS {
            let next = self.interval_ms + SLOW_STEP_MS;
            self.interval_ms = if next > MAX_TICK_MS {
                MAX_TICK_MS
            } else {
                next
            };
        } else if frame_ms < TARGET_FRAME_MS - FAST_STEP_MS {
            let next = self.interval_ms - FAST_STEP_MS;
            self.interval_ms = if next < MIN_TICK_MS {
                MIN_TICK_MS
            } else {
                next
            };
        }
    }
}

} // verus!
