//! Health counters of a pipeline.

use vstd::prelude::*;

use crate::pipeline::time::{Duration, Instant};

verus! {

/// A count `x` below 2^65 (a `u64` plus an increment that fits in a `u64`)
/// wrapped around the range of `u64`.
pub open spec fn wrapping_u64(x: int) -> int {
    if x > u64::MAX {
        x - 0x1_0000_0000_0000_0000
    } else {
        x
    }
}

/// Health metrics of a pipeline: counters of processed, dropped and failed
/// frames, and the time of the last processed frame. Counters wrap around
/// the range of `u64`.
///
/// The metrics are not `Clone`: the stages of a pipeline record into the one
/// set of metrics that the pipeline's coordinator owns.
#[derive(Debug)]
pub struct PipelineHealth {
    /// Number of frames dropped due to backpressure or errors
    pub frame_drops: u64,
    /// Number of decode failures
    pub decode_failures: u64,
    /// Number of network errors
    pub network_errors: u64,
    /// Time (Unix microseconds) of the last successfully processed frame
    pub last_frame_time: u64,
    /// Number of frames successfully processed
    pub frames_processed: u64,
    /// Total bytes of data processed
    pub bytes_processed: u64,
    /// Number of keyframes processed
    pub keyframes_processed: u64,
}

/// Whether a pipeline whose last frame came at `last_frame` has stalled at
/// `now`: more than `threshold` microseconds have gone by.
pub open spec fn stalled(last_frame: u64, now: Instant, threshold: Duration) -> bool {
    (if now.micros >= last_frame {
        now.micros - last_frame
    } else {
        0
    }) > threshold.micros
}

impl PipelineHealth {
    /// Fresh metrics at `now`: every counter zero, the last frame time `now`.
    pub fn new_at(now: Instant) -> (h: Self)
        ensures
            h.frame_drops == 0,
            h.decode_failures == 0,
            h.network_errors == 0,
            h.last_frame_time == now.micros,
            h.frames_processed == 0,
            h.bytes_processed == 0,
            h.keyframes_processed == 0,
    {
        PipelineHealth {
            frame_drops: 0,
            decode_failures: 0,
            network_errors: 0,
            last_frame_time: now.micros,
            frames_processed: 0,
            bytes_processed: 0,
            keyframes_processed: 0,
        }
    }

    /// Fresh metrics: every counter zero, the last frame time now.
    pub fn new() -> (h: Self)
        ensures
            h.frame_drops == 0,
            h.decode_failures == 0,
            h.network_errors == 0,
            h.frames_processed == 0,
            h.bytes_processed == 0,
            h.keyframes_processed == 0,
    {
        Self::new_at(Instant::now())
    }

    /// Counts a dropped frame.
    pub fn record_frame_drop(&mut self)
        ensures
            final(self).frame_drops == wrapping_u64(old(self).frame_drops + 1),
            *final(self) == (PipelineHealth { frame_drops: final(self).frame_drops, ..*old(self) }),
    {
        self.frame_drops = self.frame_drops.wrapping_add(1);
    }

    /// Counts a decode failure.
    pub fn record_decode_failure(&mut self)
        ensures
            final(self).decode_failures == wrapping_u64(old(self).decode_failures + 1),
            *final(self) == (PipelineHealth {
                decode_failures: final(self).decode_failures,
                ..*old(self)
            }),
    {
        self.decode_failures = self.decode_failures.wrapping_add(1);
    }

    /// Counts a network error.
    pub fn record_network_error(&mut self)
        ensures
            final(self).network_errors == wrapping_u64(old(self).network_errors + 1),
            *final(self) == (PipelineHealth {
                network_errors: final(self).network_errors,
                ..*old(self)
            }),
    {
        self.network_errors = self.network_errors.wrapping_add(1);
    }

    /// Counts a frame of `size` bytes processed at `now`.
    pub fn record_frame_at(&mut self, now: Instant, size: usize, is_keyframe: bool)
        ensures
            final(self).last_frame_time == now.micros,
            final(self).frames_processed == wrapping_u64(old(self).frames_processed + 1),
            final(self).bytes_processed == wrapping_u64(old(self).bytes_processed + size),
            final(self).keyframes_processed == if is_keyframe {
                wrapping_u64(old(self).keyframes_processed + 1)
            } else {
                old(self).keyframes_processed as int
            },
            final(self).frame_drops == old(self).frame_drops,
            final(self).decode_failures == old(self).decode_failures,
            final(self).network_errors == old(self).network_errors,
    {
        self.last_frame_time = now.micros;
        self.frames_processed = self.frames_processed.wrapping_add(1);
        self.bytes_processed = self.bytes_processed.wrapping_add(size as u64);
        if is_keyframe {
            self.keyframes_processed = self.keyframes_processed.wrapping_add(1);
        }
    }

    /// Counts a frame of `size` bytes processed now.
    pub fn record_frame(&mut self, size: usize, is_keyframe: bool)
        ensures
            final(self).frames_processed == wrapping_u64(old(self).frames_processed + 1),
            final(self).bytes_processed == wrapping_u64(old(self).bytes_processed + size),
            final(self).keyframes_processed == if is_keyframe {
                wrapping_u64(old(self).keyframes_processed + 1)
            } else {
                old(self).keyframes_processed as int
            },
            final(self).frame_drops == old(self).frame_drops,
            final(self).decode_failures == old(self).decode_failures,
            final(self).network_errors == old(self).network_errors,
    {
        let now = Instant::now();
        self.record_frame_at(now, size, is_keyframe);
    }

    /// The number of frame drops.
    pub fn frame_drops(&self) -> (n: u64)
        ensures
            n == self.frame_drops,
    {
        self.frame_drops
    }

    /// The number of decode failures.
    pub fn decode_failures(&self) -> (n: u64)
        ensures
            n == self.decode_failures,
    {
        self.decode_failures
    }

    /// The number of network errors.
    pub fn network_errors(&self) -> (n: u64)
        ensures
            n == self.network_errors,
    {
        self.network_errors
    }

    /// The time of the last frame (Unix microseconds).
    pub fn last_frame_time(&self) -> (t: u64)
        ensures
            t == self.last_frame_time,
    {
        self.last_frame_time
    }

    /// The number of frames processed.
    pub fn frames_processed(&self) -> (n: u64)
        ensures
            n == self.frames_processed,
    {
        self.frames_processed
    }

    /// The total bytes processed.
    pub fn bytes_processed(&self) -> (n: u64)
        ensures
            n == self.bytes_processed,
    {
        self.bytes_processed
    }

    /// The number of keyframes processed.
    pub fn keyframes_processed(&self) -> (n: u64)
        ensures
            n == self.keyframes_processed,
    {
        self.keyframes_processed
    }

    /// Whether no frame has come for more than `threshold` at `now`.
    pub fn is_stalled_at(&self, now: Instant, threshold: Duration) -> (r: bool)
        ensures
            r == stalled(self.last_frame_time, now, threshold),
    {
        let elapsed_micros = now.micros.saturating_sub(self.last_frame_time);
        elapsed_micros > threshold.micros
    }

    /// Whether no frame has come for more than `threshold`.
    pub fn is_stalled(&self, threshold: Duration) -> (r: bool)
        ensures
            exists|now: Instant| r == #[trigger] stalled(self.last_frame_time, now, threshold),
    {
        let now = Instant::now();
        self.is_stalled_at(now, threshold)
    }
}

impl Default for PipelineHealth {
    fn default() -> (h: Self)
        ensures
            h.frame_drops == 0,
            h.decode_failures == 0,
            h.network_errors == 0,
            h.frames_processed == 0,
            h.bytes_processed == 0,
            h.keyframes_processed == 0,
    {
        Self::new()
    }
}

/// What one periodic health check found: whether the pipeline stalled, and
/// how many decode failures and network errors are new since the last check.
#[derive(Clone, Copy, Debug, PartialEq, Eq, Structural)]
pub struct HealthFindings {
    pub stalled: bool,
    pub new_decode_failures: u64,
    pub new_network_errors: u64,
}

/// The memory of the health monitor between checks: the failure and error
/// counts it has already reported.
#[derive(Clone, Copy, Debug, PartialEq, Eq, Structural)]
pub struct HealthWatch {
    pub last_decode_failures: u64,
    pub last_network_errors: u64,
}

/// Counts that grew since the last report, and by how much.
pub open spec fn growth(current: u64, reported: u64) -> int {
    if current > reported {
        current - reported
    } else {
        0
    }
}

impl HealthWatch {
    /// Nothing reported yet.
    pub fn new() -> (w: Self)
        ensures
            w.last_decode_failures == 0,
            w.last_network_errors == 0,
    {
        HealthWatch { last_decode_failures: 0, last_network_errors: 0 }
    }

    /// One periodic check at `now`: a stall beyond `stall_threshold`, and the
    /// decode failures and network errors that grew since the last report,
    /// which are then counted as reported.
    pub fn check_at(&mut self, health: &PipelineHealth, now: Instant, stall_threshold: Duration) -> (f:
        HealthFindings)
        ensures
            f.stalled == stalled(health.last_frame_time, now, stall_threshold),
            f.new_decode_failures == growth(health.decode_failures, old(self).last_decode_failures),
            f.new_network_errors == growth(health.network_errors, old(self).last_network_errors),
            final(self).last_decode_failures == if f.new_decode_failures > 0 {
                health.decode_failures
            } else {
                old(self).last_decode_failures
            },
            final(self).last_network_errors == if f.new_network_errors > 0 {
                health.network_errors
            } else {
                old(self).last_network_errors
            },
    {
        let stalled = health.is_stalled_at(now, stall_threshold);
        let decode_failures = health.decode_failures();
        let mut new_decode_failures: u64 = 0;
        if decode_failures > self.last_decode_failures {
            new_decode_failures = decode_failures - self.last_decode_failures;
            self.last_decode_failures = decode_failures;
        }
        let network_errors = health.network_errors();
        let mut new_network_errors: u64 = 0;
        if network_errors > self.last_network_errors {
            new_network_errors = network_errors - self.last_network_errors;
            self.last_network_errors = network_errors;
        }
        HealthFindings { stalled, new_decode_failures, new_network_errors }
    }
}

/// A check right after another one, with no new failures or errors in
/// between, reports none.
pub proof fn law_failures_reported_once(current: u64, reported: u64)
    ensures
        ({
            let after = if growth(current, reported) > 0 {
                current
            } else {
                reported
            };
            growth(current, after) == 0
        }),
{
}

/// A pipeline that has just processed a frame is not stalled at that instant.
pub proof fn law_fresh_frame_is_not_stalled(now: Instant, threshold: Duration)
    ensures
        !stalled(now.micros, now, threshold),
{
}

/// Staying stalled: once stalled, a pipeline stays stalled as time goes on
/// until the next frame arrives.
pub proof fn law_stall_persists(last_frame: u64, now: Instant, later: Instant, threshold: Duration)
    requires
        stalled(last_frame, now, threshold),
        now.micros <= later.micros,
    ensures
        stalled(last_frame, later, threshold),
{
}

} // verus!
