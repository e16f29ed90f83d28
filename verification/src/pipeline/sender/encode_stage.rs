//! Encode-side framing: wrapping encoded H.264 data into media frames with
//! timestamps and correlation ids.

use bytes::Bytes;
use vstd::prelude::*;

use crate::pipeline::clock::{fits_i64, stream_micros, MediaClock};
use crate::pipeline::health::{wrapping_u64, PipelineHealth};
use crate::pipeline::receiver::decode_stage::{header_nal_type, nal_type, start_code_at};
use crate::pipeline::time::{as_unsigned, span_between, Instant};
use crate::pipeline::types::{bytes_as_slice, bytes_content, bytes_len, MediaFrame, MediaKind, Timestamp};

verus! {

/// An IDR NAL unit (type 5) follows a start code.
pub open spec fn has_idr(data: Seq<u8>) -> bool {
    exists|i: int| #[trigger] start_code_at(data, i) && nal_type(data[i + 3]) == 5
}

/// Whether H.264 Annex B data holds an IDR NAL unit (type 5), after a
/// three- or four-byte start code.
pub fn contains_idr(data: &[u8]) -> (r: bool)
    ensures
        r == has_idr(data@),
{
    let len = data.len();
    let mut i: usize = 0;
    while len - i > 3
        invariant
            len == data@.len(),
            i <= len,
            forall|j: int| 0 <= j < i ==> !(#[trigger] start_code_at(data@, j) && nal_type(data@[j + 3]) == 5),
        decreases len - i,
    {
        if data[i] == 0 && data[i + 1] == 0 && data[i + 2] == 1 && header_nal_type(data[i + 3]) == 5 {
            assert(start_code_at(data@, i as int));
            return true;
        }
        i = i + 1;
    }
    proof {
        assert forall|j: int| #[trigger] start_code_at(data@, j) implies nal_type(data@[j + 3]) != 5 by {
            if j >= i {
                assert(false);
            }
        }
    }
    false
}

/// What wrapping the encoded frame `data` taken at `now` does: its
/// presentation and decode timestamps are the clock's video time, it takes
/// the next correlation id, it is a keyframe when it holds an IDR NAL unit,
/// and the frame is counted in the health metrics; when the video time does
/// not fit in an `i64`, the result is `None` and nothing changes.
pub open spec fn frame_wrapped(
    clock_before: MediaClock,
    clock_after: MediaClock,
    health_before: PipelineHealth,
    health_after: PipelineHealth,
    data: Bytes,
    r: Option<MediaFrame>,
    now: Instant,
) -> bool {
    let micros = stream_micros(clock_before.base_instant(), clock_before.video_shift(), now);
    if fits_i64(micros) {
        &&& r matches Some(f) && {
            &&& f.kind == MediaKind::Video
            &&& f.data == data
            &&& f.pts == Timestamp { micros: micros as i64 }
            &&& f.dts == f.pts
            &&& f.correlation_id == as_unsigned(clock_before.counter())
            &&& f.is_keyframe == has_idr(bytes_content(data))
            &&& f.width is None && f.height is None
            &&& f.sample_rate is None && f.channels is None
        }
        &&& clock_after.counter() == crate::pipeline::time::wrapping_i64(
            clock_before.counter() + 1,
        )
        &&& clock_after.video_shift() == clock_before.video_shift()
        &&& clock_after.audio_shift() == clock_before.audio_shift()
        &&& clock_after.base_instant() == clock_before.base_instant()
        &&& health_after.last_frame_time == now.micros
        &&& health_after.frames_processed == wrapping_u64(
            health_before.frames_processed + 1,
        )
        &&& health_after.bytes_processed == wrapping_u64(
            health_before.bytes_processed + bytes_content(data).len(),
        )
        &&& health_after.keyframes_processed == if has_idr(bytes_content(data)) {
            wrapping_u64(health_before.keyframes_processed + 1)
        } else {
            health_before.keyframes_processed as int
        }
        &&& health_after.frame_drops == health_before.frame_drops
        &&& health_after.decode_failures == health_before.decode_failures
        &&& health_after.network_errors == health_before.network_errors
    } else {
        &&& r is None
        &&& clock_after == clock_before
        &&& health_after == health_before
    }
}

/// Wraps an encoded H.264 frame taken at `now` into a video media frame:
/// its presentation and decode timestamps are the clock's video time, it
/// takes the next correlation id, it is a keyframe when it holds an IDR NAL
/// unit, and the frame is counted in the health metrics. `None`, changing
/// nothing, when the video time does not fit in an `i64`.
pub fn wrap_frame_at(
    clock: &mut MediaClock,
    health: &mut PipelineHealth,
    data: Bytes,
    now: Instant,
) -> (r: Option<MediaFrame>)
    ensures
        frame_wrapped(*old(clock), *final(clock), *old(health), *final(health), data, r, now),
{
    let pts = match clock.video_now_at(now) {
        Some(t) => t,
        None => {
            return None;
        },
    };
    let correlation_id = clock.next_correlation_id();
    let is_keyframe = contains_idr(bytes_as_slice(&data));
    let size = bytes_len(&data);
    health.record_frame_at(now, size, is_keyframe);
    Some(
        MediaFrame {
            kind: MediaKind::Video,
            data,
            pts,
            dts: pts,
            correlation_id,
            is_keyframe,
            width: None,
            height: None,
            sample_rate: None,
            channels: None,
        },
    )
}

/// Wraps an encoded H.264 frame taken now (see `wrap_frame_at`).
pub fn wrap_frame(clock: &mut MediaClock, health: &mut PipelineHealth, data: Bytes) -> (r: Option<
    MediaFrame,
>)
    ensures
        r matches Some(f) ==> f.data == data && f.dts == f.pts && f.kind == MediaKind::Video
            && f.is_keyframe == has_idr(bytes_content(data)) && f.correlation_id == as_unsigned(
            old(clock).counter(),
        ),
        r is None ==> *final(clock) == *old(clock) && *final(health) == *old(health),
        exists|now: Instant|
            #[trigger] frame_wrapped(*old(clock), *final(clock), *old(health), *final(health), data, r, now),
        (forall|now: Instant|
            fits_i64(
                #[trigger] stream_micros(old(clock).base_instant(), old(clock).video_shift(), now),
            )) ==> r is Some,
{
    let now = Instant::now();
    wrap_frame_at(clock, health, data, now)
}


/// A frame wrapped at `now` is stamped with the clock's video time at `now`:
/// the time elapsed since the clock's base plus the video offset, for both
/// presentation and decoding; and the health metrics record `now` as the
/// time of the last frame.
pub proof fn law_wrapped_frame_carries_video_time(
    clock_before: MediaClock,
    clock_after: MediaClock,
    health_before: PipelineHealth,
    health_after: PipelineHealth,
    data: Bytes,
    r: Option<MediaFrame>,
    now: Instant,
)
    requires
        frame_wrapped(clock_before, clock_after, health_before, health_after, data, r, now),
        span_between(now, clock_before.base_instant()) <= i64::MAX,
        i64::MIN <= span_between(now, clock_before.base_instant()) + clock_before.video_shift()
            <= i64::MAX,
    ensures
        r matches Some(f) && f.pts.micros == span_between(now, clock_before.base_instant())
            + clock_before.video_shift() && f.dts == f.pts,
        health_after.last_frame_time == now.micros,
{
}

/// Frames wrapped later carry later timestamps: with the same clock, a
/// frame wrapped at a later instant never has the earlier presentation time.
pub proof fn law_wrapped_timestamps_follow_time(
    clock: MediaClock,
    clock1: MediaClock,
    clock2: MediaClock,
    health: PipelineHealth,
    health1: PipelineHealth,
    health2: PipelineHealth,
    data1: Bytes,
    data2: Bytes,
    f1: MediaFrame,
    f2: MediaFrame,
    t1: Instant,
    t2: Instant,
)
    requires
        frame_wrapped(clock, clock1, health, health1, data1, Some(f1), t1),
        frame_wrapped(clock, clock2, health, health2, data2, Some(f2), t2),
        t1.micros <= t2.micros,
        span_between(t2, clock.base_instant()) <= i64::MAX,
    ensures
        f1.pts.micros <= f2.pts.micros,
{
}

} // verus!
