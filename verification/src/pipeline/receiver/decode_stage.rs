//! Decode-side bookkeeping of the receiver pipeline: decoded frames with
//! their timing, detection of H.264 IDR slices and parameter sets, and the
//! gate that lets access units through to the decoder only after one.

use vstd::prelude::*;

use crate::pipeline::clock::MediaClock;
use crate::pipeline::health::{wrapping_u64, PipelineHealth};
use crate::pipeline::time::{as_signed, as_unsigned, span_between, wrapping_i64, Instant};
use crate::pipeline::types::Timestamp;

verus! {

/// A decoded YUV420p video frame.
#[derive(Clone, Debug)]
pub struct VideoFrame {
    pub data: Vec<u8>,
    pub width: u32,
    pub height: u32,
}

/// A decoded video frame with timing information.
#[derive(Clone, Debug)]
pub struct TimedVideoFrame {
    pub frame: VideoFrame,
    pub pts: Timestamp,
    pub correlation_id: u64,
    pub is_keyframe: bool,
}

/// An Annex B start code `00 00 01` begins at offset `i` and a NAL header
/// byte follows it. (The four-byte start code `00 00 00 01` ends in one.)
pub open spec fn start_code_at(data: Seq<u8>, i: int) -> bool {
    &&& 0 <= i
    &&& i + 3 < data.len()
    &&& data[i] == 0
    &&& data[i + 1] == 0
    &&& data[i + 2] == 1
}

/// The NAL unit type held in the low five bits of a NAL header byte.
pub open spec fn nal_type(header: u8) -> u8 {
    header % 32
}

/// A NAL unit of type IDR (5), SPS (7) or PPS (8) follows a start code.
pub open spec fn has_idr_or_parameter_set(data: Seq<u8>) -> bool {
    exists|i: int|
        #[trigger] start_code_at(data, i) && (nal_type(data[i + 3]) == 5 || nal_type(data[i + 3])
            == 7 || nal_type(data[i + 3]) == 8)
}

pub(crate) fn header_nal_type(header: u8) -> (t: u8)
    ensures
        t == nal_type(header),
{
    assert(header & 0x1f == header % 32) by (bit_vector);
    header & 0x1f
}

/// Whether the H.264 access unit holds an IDR slice (NAL type 5) or a
/// sequence or picture parameter set (types 7 and 8), after a three- or
/// four-byte start code.
pub fn au_contains_idr_or_sps(au: &[u8]) -> (r: bool)
    ensures
        r == has_idr_or_parameter_set(au@),
{
    let len = au.len();
    let mut i: usize = 0;
    while len - i > 3
        invariant
            len == au@.len(),
            i <= len,
            forall|j: int|
                0 <= j < i ==> !(#[trigger] start_code_at(au@, j) && (nal_type(au@[j + 3]) == 5
                    || nal_type(au@[j + 3]) == 7 || nal_type(au@[j + 3]) == 8)),
        decreases len - i,
    {
        if au[i] == 0 && au[i + 1] == 0 && au[i + 2] == 1 {
            let t = header_nal_type(au[i + 3]);
            if t == 5 || t == 7 || t == 8 {
                assert(start_code_at(au@, i as int));
                return true;
            }
        }
        i = i + 1;
    }
    proof {
        assert forall|j: int| #[trigger] start_code_at(au@, j) implies !(nal_type(au@[j + 3]) == 5
            || nal_type(au@[j + 3]) == 7 || nal_type(au@[j + 3]) == 8) by {
            if j >= i {
                assert(false);
            }
        }
    }
    false
}

/// Whether an access unit goes on to the decoder while decoding `waiting`s
/// for a keyframe: always once a keyframe has passed, and otherwise only a
/// unit with an IDR slice or a parameter set.
pub open spec fn gate_admits(waiting: bool, au: Seq<u8>) -> bool {
    !waiting || has_idr_or_parameter_set(au)
}

/// One access unit through the keyframe gate and the decoder, from a gate
/// that is `waiting` or not and has counted `failures` failures in a row;
/// `decoded` says whether the decoder produced a picture when it was asked.
/// The result: whether the unit went to the decoder, and whether decoding
/// waits and how many failures in a row are counted afterwards.
pub open spec fn gate_step(waiting: bool, failures: nat, au: Seq<u8>, decoded: bool) -> (
    bool,
    bool,
    nat,
) {
    if !gate_admits(waiting, au) {
        (false, waiting, failures)
    } else if decoded {
        (true, false, 0)
    } else if failures + 1 >= 10 {
        (true, true, 0)
    } else {
        (true, false, failures + 1)
    }
}

/// For each access unit of a run, whether it went to the decoder, starting
/// out `waiting` for a keyframe or not with `failures` failures in a row.
pub open spec fn gate_run(waiting: bool, failures: nat, aus: Seq<Seq<u8>>, decoded: Seq<bool>) -> Seq<
    bool,
>
    decreases aus.len(),
{
    if aus.len() == 0 {
        Seq::empty()
    } else {
        let step = gate_step(waiting, failures, aus[0], decoded[0]);
        seq![step.0] + gate_run(step.1, step.2, aus.drop_first(), decoded.drop_first())
    }
}

proof fn lemma_gate_run_len(waiting: bool, failures: nat, aus: Seq<Seq<u8>>, decoded: Seq<bool>)
    ensures
        gate_run(waiting, failures, aus, decoded).len() == aus.len(),
    decreases aus.len(),
{
    if aus.len() > 0 {
        let step = gate_step(waiting, failures, aus[0], decoded[0]);
        lemma_gate_run_len(step.1, step.2, aus.drop_first(), decoded.drop_first());
    }
}

/// No access unit reaches the decoder from a waiting gate before one with
/// an IDR slice or a parameter set: from the start of a stream, and again
/// after ten decode failures in a row sent decoding back to waiting.
pub proof fn law_no_decode_before_keyframe(
    failures: nat,
    aus: Seq<Seq<u8>>,
    decoded: Seq<bool>,
    i: int,
)
    requires
        aus.len() == decoded.len(),
        0 <= i < aus.len(),
        gate_run(true, failures, aus, decoded)[i],
    ensures
        exists|j: int| 0 <= j <= i && #[trigger] has_idr_or_parameter_set(aus[j]),
    decreases aus.len(),
{
    lemma_gate_run_len(true, failures, aus, decoded);
    let step = gate_step(true, failures, aus[0], decoded[0]);
    if has_idr_or_parameter_set(aus[0]) {
        assert(has_idr_or_parameter_set(aus[0]));
    } else {
        let rest = gate_run(step.1, step.2, aus.drop_first(), decoded.drop_first());
        assert(gate_run(true, failures, aus, decoded) == seq![false] + rest);
        assert(i > 0);
        assert(rest[i - 1]);
        law_no_decode_before_keyframe(failures, aus.drop_first(), decoded.drop_first(), i - 1);
        let j = choose|j: int| 0 <= j <= i - 1 && #[trigger] has_idr_or_parameter_set(aus.drop_first()[j]);
        assert(aus.drop_first()[j] == aus[j + 1]);
        assert(has_idr_or_parameter_set(aus[j + 1]));
    }
}

/// The tenth decode failure in a row sends decoding back to waiting for a
/// keyframe, and the failure count starts over.
pub proof fn law_tenth_failure_rearms_gate(waiting: bool, au: Seq<u8>)
    requires
        gate_admits(waiting, au),
    ensures
        gate_step(waiting, 9, au, false) == (true, true, 0nat),
{
}

/// Holds decoding back until the first keyframe, and back again after ten
/// decode failures in a row.
pub struct KeyframeGate {
    waiting_for_keyframe: bool,
    consecutive_failures: u32,
}

impl KeyframeGate {
    #[verifier::type_invariant]
    spec fn failures_below_reset(self) -> bool {
        self.consecutive_failures < 10
    }

    /// Decoding waits for a keyframe.
    pub closed spec fn waiting(&self) -> bool {
        self.waiting_for_keyframe
    }

    /// Decode failures since the last success or reset.
    pub closed spec fn failures(&self) -> u32 {
        self.consecutive_failures
    }

    /// A gate that waits for the first keyframe.
    pub fn new() -> (g: Self)
        ensures
            g.waiting(),
            g.failures() == 0,
    {
        KeyframeGate { waiting_for_keyframe: true, consecutive_failures: 0 }
    }

    /// Whether the access unit goes on to the decoder: always once a
    /// keyframe has passed; while waiting, only an access unit with an IDR
    /// slice or a parameter set, which ends the wait.
    pub fn should_decode(&mut self, au: &[u8]) -> (decode: bool)
        ensures
            decode == gate_admits(old(self).waiting(), au@),
            final(self).waiting() == (old(self).waiting() && !has_idr_or_parameter_set(au@)),
            final(self).failures() == old(self).failures(),
    {
        proof {
            use_type_invariant(&*self);
        }
        if self.waiting_for_keyframe {
            if au_contains_idr_or_sps(au) {
                self.waiting_for_keyframe = false;
                true
            } else {
                false
            }
        } else {
            true
        }
    }

    /// A frame decoded: the failure run ends.
    pub fn record_success(&mut self)
        ensures
            final(self).failures() == 0,
            final(self).waiting() == old(self).waiting(),
    {
        self.consecutive_failures = 0;
    }

    /// Counts an access unit the decoder could not decode. Ten of them in a
    /// row send decoding back to waiting for an IDR slice or parameter set,
    /// and the caller starts its depacketizer afresh.
    pub fn record_failure(&mut self) -> (reset: bool)
        ensures
            reset == (old(self).failures() + 1 >= 10),
            final(self).failures() == if reset {
                0
            } else {
                old(self).failures() + 1
            },
            final(self).waiting() == (reset || old(self).waiting()),
    {
        proof {
            use_type_invariant(&*self);
        }
        if self.consecutive_failures + 1 >= 10 {
            self.consecutive_failures = 0;
            self.waiting_for_keyframe = true;
            true
        } else {
            self.consecutive_failures = self.consecutive_failures + 1;
            false
        }
    }
}

/// What stamping the picture decoded from the access unit `au`, whose last
/// packet arrived at `received_at`, at `now` gives: its timestamp is the
/// arrival time on the clock, it takes the next correlation id, it is a
/// keyframe when the access unit holds an IDR slice or a parameter set, and
/// it is counted in the health metrics with the size of the decoded picture.
pub open spec fn frame_stamped(
    clock_before: MediaClock,
    clock_after: MediaClock,
    health_before: PipelineHealth,
    health_after: PipelineHealth,
    au: Seq<u8>,
    picture: Seq<u8>,
    width: u32,
    height: u32,
    received_at: Instant,
    f: TimedVideoFrame,
    now: Instant,
) -> bool {
    &&& f.frame.data@ == picture
    &&& f.frame.width == width
    &&& f.frame.height == height
    &&& f.pts.micros == as_signed(span_between(received_at, clock_before.base_instant()) as u64)
    &&& f.correlation_id == as_unsigned(clock_before.counter())
    &&& f.is_keyframe == has_idr_or_parameter_set(au)
    &&& clock_after.counter() == wrapping_i64(clock_before.counter() + 1)
    &&& clock_after.video_shift() == clock_before.video_shift()
    &&& clock_after.audio_shift() == clock_before.audio_shift()
    &&& clock_after.base_instant() == clock_before.base_instant()
    &&& health_after.last_frame_time == now.micros
    &&& health_after.frames_processed == wrapping_u64(health_before.frames_processed + 1)
    &&& health_after.bytes_processed == wrapping_u64(health_before.bytes_processed + picture.len())
    &&& health_after.keyframes_processed == if has_idr_or_parameter_set(au) {
        wrapping_u64(health_before.keyframes_processed + 1)
    } else {
        health_before.keyframes_processed as int
    }
    &&& health_after.frame_drops == health_before.frame_drops
    &&& health_after.decode_failures == health_before.decode_failures
    &&& health_after.network_errors == health_before.network_errors
}

/// Stamps the picture decoded from the access unit `au`, whose last packet
/// arrived at `received_at`, at `now` (see `frame_stamped`).
pub fn stamp_decoded_frame_at(
    clock: &mut MediaClock,
    health: &mut PipelineHealth,
    au: &[u8],
    picture: Vec<u8>,
    width: u32,
    height: u32,
    received_at: Instant,
    now: Instant,
) -> (f: TimedVideoFrame)
    ensures
        frame_stamped(
            *old(clock),
            *final(clock),
            *old(health),
            *final(health),
            au@,
            picture@,
            width,
            height,
            received_at,
            f,
            now,
        ),
{
    let pts = clock.timestamp_from_instant(received_at);
    let correlation_id = clock.next_correlation_id();
    let is_keyframe = au_contains_idr_or_sps(au);
    health.record_frame_at(now, picture.len(), is_keyframe);
    TimedVideoFrame {
        frame: VideoFrame { data: picture, width, height },
        pts,
        correlation_id,
        is_keyframe,
    }
}

/// Stamps a decoded picture now (see `frame_stamped`).
pub fn stamp_decoded_frame(
    clock: &mut MediaClock,
    health: &mut PipelineHealth,
    au: &[u8],
    picture: Vec<u8>,
    width: u32,
    height: u32,
    received_at: Instant,
) -> (f: TimedVideoFrame)
    ensures
        exists|now: Instant|
            #[trigger] frame_stamped(
                *old(clock),
                *final(clock),
                *old(health),
                *final(health),
                au@,
                picture@,
                width,
                height,
                received_at,
                f,
                now,
            ),
{
    stamp_decoded_frame_at(clock, health, au, picture, width, height, received_at, Instant::now())
}

} // verus!
