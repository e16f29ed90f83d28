//! Media clock for audio-video synchronization.
//!
//! The clock keeps a base instant and one offset per media type, so that
//! timestamps of both streams live on one time base and each stream's
//! pipeline latency can be compensated.

use vstd::prelude::*;

use crate::pipeline::time::{
    as_signed, as_unsigned, reinterpret_as_i64, reinterpret_as_u64, span_between, wrapping_i64,
    Duration, Instant,
};
use crate::pipeline::types::Timestamp;

verus! {

/// `x` fits in an `i64`.
pub open spec fn fits_i64(x: int) -> bool {
    i64::MIN <= x <= i64::MAX
}

/// The microsecond count of a stream's timestamp at `now`: the time elapsed
/// since `base` (read as a signed count) plus the stream's offset.
pub open spec fn stream_micros(base: Instant, offset: i64, now: Instant) -> int {
    as_signed(span_between(now, base) as u64) + offset
}

/// An offset as a span: negative offsets read as zero.
pub open spec fn offset_span(offset: i64) -> int {
    if offset >= 0 {
        offset as int
    } else {
        0
    }
}

/// The distance between the video and audio offsets, whichever leads.
pub open spec fn offset_gap(video: i64, audio: i64) -> int {
    if video - audio >= 0 {
        video - audio
    } else {
        audio - video
    }
}

/// Media clock: a time base shared by the audio and video streams.
///
/// The clock is not `Clone`: every stage of a pipeline reaches the one clock
/// through the pipeline's coordinator, so an offset set by one stage is the
/// offset every stage reads, and correlation ids come from a single counter.
#[derive(Debug)]
pub struct MediaClock {
    base: Instant,
    video_offset: i64,
    audio_offset: i64,
    correlation_counter: i64,
}

impl MediaClock {
    /// The base instant of the clock.
    pub closed spec fn base_instant(&self) -> Instant {
        self.base
    }

    /// The video offset in microseconds.
    pub closed spec fn video_shift(&self) -> i64 {
        self.video_offset
    }

    /// The audio offset in microseconds.
    pub closed spec fn audio_shift(&self) -> i64 {
        self.audio_offset
    }

    /// The correlation counter.
    pub closed spec fn counter(&self) -> i64 {
        self.correlation_counter
    }

    /// A clock starting now, with no offsets.
    pub fn new() -> (c: Self)
        ensures
            c.video_shift() == 0,
            c.audio_shift() == 0,
            c.counter() == 0,
    {
        Self::with_base(Instant::now())
    }

    /// A clock with the given base instant and no offsets.
    pub fn with_base(base: Instant) -> (c: Self)
        ensures
            c.base_instant() == base,
            c.video_shift() == 0,
            c.audio_shift() == 0,
            c.counter() == 0,
    {
        MediaClock { base, video_offset: 0, audio_offset: 0, correlation_counter: 0 }
    }

    /// The base instant.
    pub fn base(&self) -> (b: Instant)
        ensures
            b == self.base_instant(),
    {
        self.base
    }

    fn stream_now_at(&self, offset: i64, now: Instant) -> (t: Option<Timestamp>)
        ensures
            t == if fits_i64(stream_micros(self.base, offset, now)) {
                Some(Timestamp { micros: stream_micros(self.base, offset, now) as i64 })
            } else {
                None::<Timestamp>
            },
    {
        let elapsed = now.saturating_duration_since(self.base);
        let elapsed_micros = reinterpret_as_i64(elapsed.micros);
        match elapsed_micros.checked_add(offset) {
            Some(m) => Some(Timestamp::from_micros(m)),
            None => None,
        }
    }

    /// The video timestamp at `now`; `None` when it does not fit in an `i64`.
    pub fn video_now_at(&self, now: Instant) -> (t: Option<Timestamp>)
        ensures
            t == if fits_i64(stream_micros(self.base_instant(), self.video_shift(), now)) {
                Some(
                    Timestamp {
                        micros: stream_micros(self.base_instant(), self.video_shift(), now) as i64,
                    },
                )
            } else {
                None::<Timestamp>
            },
    {
        self.stream_now_at(self.video_offset, now)
    }

    /// The audio timestamp at `now`; `None` when it does not fit in an `i64`.
    pub fn audio_now_at(&self, now: Instant) -> (t: Option<Timestamp>)
        ensures
            t == if fits_i64(stream_micros(self.base_instant(), self.audio_shift(), now)) {
                Some(
                    Timestamp {
                        micros: stream_micros(self.base_instant(), self.audio_shift(), now) as i64,
                    },
                )
            } else {
                None::<Timestamp>
            },
    {
        self.stream_now_at(self.audio_offset, now)
    }

    /// The current video timestamp; `None` when it does not fit in an `i64`.
    pub fn video_now(&self) -> (t: Option<Timestamp>)
        ensures
            exists|now: Instant|
                t == if fits_i64(#[trigger] stream_micros(self.base_instant(), self.video_shift(), now)) {
                    Some(
                        Timestamp {
                            micros: stream_micros(self.base_instant(), self.video_shift(), now) as i64,
                        },
                    )
                } else {
                    None::<Timestamp>
                },
    {
        let now = Instant::now();
        self.video_now_at(now)
    }

    /// The current audio timestamp; `None` when it does not fit in an `i64`.
    pub fn audio_now(&self) -> (t: Option<Timestamp>)
        ensures
            exists|now: Instant|
                t == if fits_i64(#[trigger] stream_micros(self.base_instant(), self.audio_shift(), now)) {
                    Some(
                        Timestamp {
                            micros: stream_micros(self.base_instant(), self.audio_shift(), now) as i64,
                        },
                    )
                } else {
                    None::<Timestamp>
                },
    {
        let now = Instant::now();
        self.audio_now_at(now)
    }

    /// The timestamp of `instant` relative to the clock base.
    pub fn timestamp_from_instant(&self, instant: Instant) -> (t: Timestamp)
        ensures
            t.micros == as_signed(span_between(instant, self.base_instant()) as u64),
    {
        Timestamp::from_instant(instant, self.base)
    }

    /// The timestamp `duration` after the clock started.
    pub fn timestamp_from_duration(&self, duration: Duration) -> (t: Timestamp)
        ensures
            t.micros == as_signed(duration.micros),
    {
        Timestamp::from_duration(duration)
    }

    /// Sets the video offset.
    pub fn set_video_offset(&mut self, offset: Duration)
        ensures
            final(self).video_shift() == as_signed(offset.micros),
            final(self).audio_shift() == old(self).audio_shift(),
            final(self).base_instant() == old(self).base_instant(),
            final(self).counter() == old(self).counter(),
    {
        self.video_offset = reinterpret_as_i64(offset.micros);
    }

    /// Sets the audio offset.
    pub fn set_audio_offset(&mut self, offset: Duration)
        ensures
            final(self).audio_shift() == as_signed(offset.micros),
            final(self).video_shift() == old(self).video_shift(),
            final(self).base_instant() == old(self).base_instant(),
            final(self).counter() == old(self).counter(),
    {
        self.audio_offset = reinterpret_as_i64(offset.micros);
    }

    fn shifted(offset: i64, delta: Duration, subtract: bool) -> (r: i64)
        requires
            !(subtract && delta.micros == 0x8000_0000_0000_0000),
        ensures
            r == wrapping_i64(
                offset + if subtract {
                    -as_signed(delta.micros)
                } else {
                    as_signed(delta.micros)
                },
            ),
    {
        let delta_micros = reinterpret_as_i64(delta.micros);
        let adjustment: i64 = if subtract {
            -delta_micros
        } else {
            delta_micros
        };
        offset.wrapping_add(adjustment)
    }

    /// Moves the video offset by `delta`, forward or (with `subtract`) back;
    /// the offset wraps around the range of `i64`.
    pub fn adjust_video_offset(&mut self, delta: Duration, subtract: bool)
        requires
            !(subtract && delta.micros == 0x8000_0000_0000_0000),
        ensures
            final(self).video_shift() == wrapping_i64(
                old(self).video_shift() + if subtract {
                    -as_signed(delta.micros)
                } else {
                    as_signed(delta.micros)
                },
            ),
            final(self).audio_shift() == old(self).audio_shift(),
            final(self).base_instant() == old(self).base_instant(),
            final(self).counter() == old(self).counter(),
    {
        self.video_offset = Self::shifted(self.video_offset, delta, subtract);
    }

    /// Moves the audio offset by `delta`, forward or (with `subtract`) back;
    /// the offset wraps around the range of `i64`.
    pub fn adjust_audio_offset(&mut self, delta: Duration, subtract: bool)
        requires
            !(subtract && delta.micros == 0x8000_0000_0000_0000),
        ensures
            final(self).audio_shift() == wrapping_i64(
                old(self).audio_shift() + if subtract {
                    -as_signed(delta.micros)
                } else {
                    as_signed(delta.micros)
                },
            ),
            final(self).video_shift() == old(self).video_shift(),
            final(self).base_instant() == old(self).base_instant(),
            final(self).counter() == old(self).counter(),
    {
        self.audio_offset = Self::shifted(self.audio_offset, delta, subtract);
    }

    /// The video offset as a span; a negative offset reads as zero.
    pub fn video_offset(&self) -> (d: Duration)
        ensures
            d.micros == offset_span(self.video_shift()),
    {
        if self.video_offset >= 0 {
            Duration::from_micros(self.video_offset as u64)
        } else {
            Duration::from_micros(0)
        }
    }

    /// The audio offset as a span; a negative offset reads as zero.
    pub fn audio_offset(&self) -> (d: Duration)
        ensures
            d.micros == offset_span(self.audio_shift()),
    {
        if self.audio_offset >= 0 {
            Duration::from_micros(self.audio_offset as u64)
        } else {
            Duration::from_micros(0)
        }
    }

    /// A fresh correlation id: ids are handed out in sequence, wrapping
    /// around the 64-bit range.
    pub fn next_correlation_id(&mut self) -> (id: u64)
        ensures
            id == as_unsigned(old(self).counter()),
            final(self).counter() == wrapping_i64(old(self).counter() + 1),
            final(self).video_shift() == old(self).video_shift(),
            final(self).audio_shift() == old(self).audio_shift(),
            final(self).base_instant() == old(self).base_instant(),
    {
        let id = reinterpret_as_u64(self.correlation_counter);
        self.correlation_counter = self.correlation_counter.wrapping_add(1);
        id
    }

    /// The A/V sync offset, video offset minus audio offset in microseconds:
    /// positive when video is ahead of audio, negative when audio is ahead.
    pub fn av_sync_offset(&self) -> (d: i64)
        requires
            i64::MIN <= self.video_shift() - self.audio_shift() <= i64::MAX,
        ensures
            d == self.video_shift() - self.audio_shift(),
    {
        self.video_offset - self.audio_offset
    }

    /// Whether the streams are within `tolerance` of each other, whichever
    /// leads.
    pub fn is_synced(&self, tolerance: Duration) -> (r: bool)
        requires
            i64::MIN <= self.video_shift() - self.audio_shift() <= i64::MAX,
        ensures
            r == (offset_gap(self.video_shift(), self.audio_shift()) <= tolerance.micros),
    {
        let d = self.av_sync_offset();
        if d >= 0 {
            (d as u64) <= tolerance.micros
        } else {
            let magnitude: i128 = -(d as i128);
            magnitude <= tolerance.micros as i128
        }
    }

    /// Brings video to audio: the video offset takes the audio offset.
    pub fn sync_video_to_audio(&mut self)
        ensures
            final(self).video_shift() == old(self).audio_shift(),
            final(self).audio_shift() == old(self).audio_shift(),
            final(self).base_instant() == old(self).base_instant(),
            final(self).counter() == old(self).counter(),
    {
        self.video_offset = self.audio_offset;
    }

    /// Brings audio to video: the audio offset takes the video offset.
    pub fn sync_audio_to_video(&mut self)
        ensures
            final(self).audio_shift() == old(self).video_shift(),
            final(self).video_shift() == old(self).video_shift(),
            final(self).base_instant() == old(self).base_instant(),
            final(self).counter() == old(self).counter(),
    {
        self.audio_offset = self.video_offset;
    }

    /// Resets both offsets to zero.
    pub fn reset_offsets(&mut self)
        ensures
            final(self).video_shift() == 0,
            final(self).audio_shift() == 0,
            final(self).base_instant() == old(self).base_instant(),
            final(self).counter() == old(self).counter(),
    {
        self.video_offset = 0;
        self.audio_offset = 0;
    }
}

impl Default for MediaClock {
    fn default() -> (c: Self)
        ensures
            c.video_shift() == 0,
            c.audio_shift() == 0,
            c.counter() == 0,
    {
        Self::new()
    }
}

/// An offset that was set reads back unchanged when it fits in an `i64`.
pub proof fn law_offset_reads_back(offset: Duration)
    requires
        offset.micros <= i64::MAX,
    ensures
        offset_span(as_signed(offset.micros) as i64) == offset.micros,
{
}

/// Moving an offset forward by `delta` and back by `delta` restores it.
pub proof fn law_adjust_round_trip(offset: i64, delta: Duration)
    requires
        delta.micros != 0x8000_0000_0000_0000,
    ensures
        wrapping_i64(
            wrapping_i64(offset + as_signed(delta.micros)) - as_signed(delta.micros),
        ) == offset,
{
}

/// Aligned offsets are in sync at every tolerance.
pub proof fn law_aligned_offsets_are_synced(offset: i64, tolerance: Duration)
    ensures
        offset_gap(offset, offset) == 0,
        offset_gap(offset, offset) <= tolerance.micros,
{
}

/// The A/V sync offset is negative exactly when audio is ahead, and the
/// streams are in sync exactly when its magnitude is within the tolerance.
pub proof fn law_av_offset_sign(video: i64, audio: i64, tolerance: Duration)
    ensures
        (video - audio < 0) <==> audio > video,
        offset_gap(video, audio) == if video - audio >= 0 {
            video - audio
        } else {
            -(video - audio)
        },
        offset_gap(video, audio) == offset_gap(audio, video),
{
}

/// Successive correlation ids differ by one, modulo 2^64.
pub proof fn law_correlation_ids_are_sequential(counter: i64)
    ensures
        as_unsigned(wrapping_i64(counter + 1) as i64) == (as_unsigned(counter) + 1)
            % 0x1_0000_0000_0000_0000,
{
}

/// Two streams read at the same instant are as far apart as their offsets.
pub proof fn law_stream_gap(base: Instant, video: i64, audio: i64, now: Instant)
    ensures
        stream_micros(base, video, now) - stream_micros(base, audio, now) == video - audio,
{
}

} // verus!
