//! A/V synchronization for the receiver pipeline.
//!
//! Audio is the reference clock: video frames wait in a PTS-ordered queue
//! and are released when their PTS is within tolerance of the audio playback
//! position; frames that fall too far behind audio are dropped.

use std::collections::VecDeque;
use std::sync::atomic::{AtomicI64, Ordering};
use std::sync::Arc;
use vstd::prelude::*;

use crate::pipeline::health::{wrapping_u64, PipelineHealth};
use crate::pipeline::receiver::decode_stage::{TimedVideoFrame, VideoFrame};
use crate::pipeline::time::{as_signed, reinterpret_as_i64, span_between, Duration, Instant};

verus! {

/// Configuration of A/V synchronization.
#[derive(Debug, Clone, Copy, PartialEq, Eq, Structural)]
pub struct SyncConfig {
    /// Initial playout delay (buffering time before playback starts)
    pub playout_delay: Duration,
    /// Maximum A/V drift before a late video frame is dropped
    pub max_drift: Duration,
    /// How far ahead of audio a video frame may be released
    pub frame_tolerance: Duration,
    /// Maximum number of video frames to buffer
    pub max_video_queue: usize,
    /// Maximum number of audio frames to buffer
    pub max_audio_queue: usize,
}

impl Default for SyncConfig {
    fn default() -> (c: Self)
        ensures
            c.playout_delay.micros == 200_000,
            c.max_drift.micros == 100_000,
            c.frame_tolerance.micros == 66_000,
            c.max_video_queue == 120,
            c.max_audio_queue == 240,
    {
        SyncConfig {
            playout_delay: Duration::from_millis(200),
            max_drift: Duration::from_millis(100),
            frame_tolerance: Duration::from_millis(66),
            max_video_queue: 120,
            max_audio_queue: 240,
        }
    }
}

/// `Arc::clone` from `std`: a second handle on the same shared cell.
#[verifier::external_body]
pub(crate) fn share_cell(cell: &Arc<AtomicI64>) -> (c: Arc<AtomicI64>)
    ensures
        c == *cell,
{
    Arc::clone(cell)
}

/// Tracks the audio playback position, the reference clock of A/V sync.
///
/// The position lives in an atomic shared with the audio task, which moves
/// it as audio plays; a read returns whatever the audio task stored last.
pub struct AudioPlaybackTracker {
    position_us: Arc<AtomicI64>,
    started: bool,
}

impl AudioPlaybackTracker {
    /// Whether audio playback has started.
    pub closed spec fn has_started(&self) -> bool {
        self.started
    }

    /// The shared position cell.
    pub closed spec fn position_cell(&self) -> Arc<AtomicI64> {
        self.position_us
    }

    /// A tracker at position zero whose audio has not started.
    pub fn new() -> (t: Self)
        ensures
            !t.has_started(),
    {
        AudioPlaybackTracker { position_us: Arc::new(AtomicI64::new(0)), started: false }
    }

    /// The shared position cell, for the audio task to update.
    pub fn position_ref(&self) -> (r: Arc<AtomicI64>)
        ensures
            r == self.position_cell(),
    {
        share_cell(&self.position_us)
    }

    /// Stores the audio playback position.
    pub fn update_position(&self, micros: i64) {
        self.position_us.store(micros, Ordering::Relaxed);
    }

    /// The audio playback position last stored.
    pub fn position(&self) -> i64 {
        self.position_us.load(Ordering::Relaxed)
    }

    /// Marks audio playback as started.
    pub fn mark_started(&mut self)
        ensures
            final(self).has_started(),
            final(self).position_cell() == old(self).position_cell(),
    {
        self.started = true;
    }

    /// Whether audio playback has started.
    pub fn is_started(&self) -> (r: bool)
        ensures
            r == self.has_started(),
    {
        self.started
    }
}

impl Default for AudioPlaybackTracker {
    fn default() -> (t: Self)
        ensures
            !t.has_started(),
    {
        Self::new()
    }
}

/// With audio playing at `audio_pos`, how the front of the video queue is
/// handled: how many frames at the front are dropped as too late, and
/// whether the frame after them is released. A frame is due when its PTS is
/// at most `audio_pos + tolerance`; a due frame more than `max_drift` behind
/// audio is dropped and the next one is looked at; the first due frame
/// within the drift is released, and at most one frame is released.
pub open spec fn audio_sync_plan(
    frames: Seq<TimedVideoFrame>,
    audio_pos: int,
    tolerance: int,
    max_drift: int,
) -> (nat, bool)
    decreases frames.len(),
{
    if frames.len() == 0 {
        (0, false)
    } else if frames[0].pts.micros <= audio_pos + tolerance {
        if audio_pos - frames[0].pts.micros > max_drift {
            let rest = audio_sync_plan(frames.drop_first(), audio_pos, tolerance, max_drift);
            (rest.0 + 1, rest.1)
        } else {
            (0, true)
        }
    } else {
        (0, false)
    }
}

/// Every frame's drift from audio fits in an `i64`.
pub open spec fn drifts_fit(frames: Seq<TimedVideoFrame>, audio_pos: i64) -> bool {
    forall|i: int|
        0 <= i < frames.len() ==> i64::MIN <= audio_pos - #[trigger] frames[i].pts.micros
            <= i64::MAX
}

proof fn lemma_audio_sync_plan_bound(
    frames: Seq<TimedVideoFrame>,
    audio_pos: int,
    tolerance: int,
    max_drift: int,
)
    ensures
        audio_sync_plan(frames, audio_pos, tolerance, max_drift).0 + (if audio_sync_plan(
            frames,
            audio_pos,
            tolerance,
            max_drift,
        ).1 {
            1int
        } else {
            0int
        }) <= frames.len(),
    decreases frames.len(),
{
    if frames.len() > 0 {
        lemma_audio_sync_plan_bound(frames.drop_first(), audio_pos, tolerance, max_drift);
    }
}

/// How the front of the video queue is handled: with audio started, by
/// `audio_sync_plan`; without audio, the front frame (if any) is released at
/// once.
pub open spec fn sync_plan(
    frames: Seq<TimedVideoFrame>,
    audio_started: bool,
    audio_pos: int,
    tolerance: int,
    max_drift: int,
) -> (nat, bool) {
    if audio_started {
        audio_sync_plan(frames, audio_pos, tolerance, max_drift)
    } else {
        (0, frames.len() > 0)
    }
}

/// The number of frames a plan takes off the queue.
pub open spec fn plan_consumed(plan: (nat, bool)) -> nat {
    plan.0 + if plan.1 {
        1nat
    } else {
        0nat
    }
}

/// How many frames beyond `max` remain queued.
pub open spec fn excess(len: nat, max: usize) -> nat {
    if len > max {
        (len - max) as nat
    } else {
        0
    }
}

/// Whether the stage is still in its initial playout delay at `now`.
pub open spec fn still_buffering(
    audio_started: bool,
    playout_start: Option<Instant>,
    now: Instant,
    delay: Duration,
) -> bool {
    &&& !audio_started
    &&& playout_start matches Some(start) && span_between(now, start) < delay.micros
}

proof fn lemma_wrap_count(x: u64, base: int, k: nat)
    requires
        base >= 0,
        x == (base + k) % 0x1_0000_0000_0000_0000,
    ensures
        wrapping_u64(x + 1) == (base + k + 1) % 0x1_0000_0000_0000_0000,
{
    let m: int = 0x1_0000_0000_0000_0000;
    vstd::arithmetic::div_mod::lemma_add_mod_noop(base + k, 1, m);
    vstd::arithmetic::div_mod::lemma_small_mod(1, m as nat);
    if x + 1 < m {
        vstd::arithmetic::div_mod::lemma_small_mod((x + 1) as nat, m as nat);
    } else {
        vstd::arithmetic::div_mod::lemma_mod_self_0(m);
    }
}

/// With audio playing, a released frame is due (its PTS at most
/// `tolerance` past audio) and within `max_drift` behind audio, and every
/// frame dropped before it was due but more than `max_drift` behind audio.
pub proof fn law_audio_sync_release_window(
    frames: Seq<TimedVideoFrame>,
    audio_pos: int,
    tolerance: int,
    max_drift: int,
)
    ensures
        ({
            let plan = audio_sync_plan(frames, audio_pos, tolerance, max_drift);
            &&& plan.1 ==> {
                &&& plan.0 < frames.len()
                &&& frames[plan.0 as int].pts.micros <= audio_pos + tolerance
                &&& audio_pos - frames[plan.0 as int].pts.micros <= max_drift
            }
            &&& forall|i: int|
                0 <= i < plan.0 ==> #[trigger] frames[i].pts.micros <= audio_pos + tolerance
                    && audio_pos - frames[i].pts.micros > max_drift
        }),
    decreases frames.len(),
{
    if frames.len() > 0 {
        let rest = frames.drop_first();
        law_audio_sync_release_window(rest, audio_pos, tolerance, max_drift);
        lemma_audio_sync_plan_bound(rest, audio_pos, tolerance, max_drift);
        let plan = audio_sync_plan(frames, audio_pos, tolerance, max_drift);
        let rplan = audio_sync_plan(rest, audio_pos, tolerance, max_drift);
        if plan.1 && plan.0 > 0 {
            assert(frames[plan.0 as int] == rest[rplan.0 as int]);
        }
        assert forall|i: int| 0 <= i < plan.0 implies #[trigger] frames[i].pts.micros <= audio_pos
            + tolerance && audio_pos - frames[i].pts.micros > max_drift by {
            if i > 0 {
                assert(frames[i] == rest[i - 1]);
            }
        }
    }
}

/// After a scheduling step that is not held back by the playout delay,
/// the queue holds at most its capacity.
pub proof fn law_queue_within_capacity(rest: Seq<TimedVideoFrame>, max: usize)
    ensures
        rest.skip(excess(rest.len(), max) as int).len() <= max,
{
}

/// The A/V synchronization stage: the video queue and its scheduling.
pub struct SyncStage {
    video_queue: VecDeque<TimedVideoFrame>,
    audio_tracker: AudioPlaybackTracker,
    config: SyncConfig,
    playout_start: Option<Instant>,
    frames_released: u64,
    frames_dropped: u64,
}

/// The scheduling arithmetic stays within 64 bits: with audio started, the
/// due limit and every frame's drift from audio fit in an `i64`, and the
/// counters cannot overflow.
pub open spec fn schedulable(stage: SyncStage, audio_pos: i64) -> bool {
    &&& stage.tracker().has_started() ==> {
        &&& i64::MIN <= audio_pos + as_signed(stage.config().frame_tolerance.micros) <= i64::MAX
        &&& drifts_fit(stage.queue(), audio_pos)
    }
    &&& stage.dropped() + stage.queue().len() <= u64::MAX
    &&& stage.released() < u64::MAX
}

/// The frames are in presentation order: PTS never decreases from front to
/// back.
pub open spec fn pts_ordered(frames: Seq<TimedVideoFrame>) -> bool {
    forall|i: int, j: int|
        0 <= i <= j < frames.len() ==> #[trigger] frames[i].pts.micros <= #[trigger] frames[j].pts.micros
}

/// A scheduling step keeps the queue in presentation order: what stays
/// queued is the back part of what was queued.
pub proof fn law_schedule_keeps_pts_order(
    before: SyncStage,
    after: SyncStage,
    health_before: PipelineHealth,
    health_after: PipelineHealth,
    output: Seq<VideoFrame>,
    audio_pos: i64,
    now: Instant,
)
    requires
        scheduled(before, after, health_before, health_after, output, audio_pos, now),
        pts_ordered(before.queue()),
    ensures
        pts_ordered(after.queue()),
{
    let q = before.queue();
    let cfg = before.config();
    let started = before.tracker().has_started();
    if !still_buffering(started, before.playout_started_at(), now, cfg.playout_delay) {
        let plan = sync_plan(
            q,
            started,
            audio_pos as int,
            as_signed(cfg.frame_tolerance.micros),
            as_signed(cfg.max_drift.micros),
        );
        let c = plan_consumed(plan) as int;
        let rest = q.skip(c);
        let t = excess(rest.len(), cfg.max_video_queue) as int;
        let a = after.queue();
        assert forall|i: int, j: int| 0 <= i <= j < a.len() implies #[trigger] a[i].pts.micros
            <= #[trigger] a[j].pts.micros by {
            assert(a[i] == q[c + t + i]);
            assert(a[j] == q[c + t + j]);
        }
    }
}

/// Every frame is accounted for between `before` and `after`: the frames
/// queued before plus the `pushed` ones are the frames still queued, the
/// `sent` ones and the ones dropped in between.
pub open spec fn frames_accounted(before: SyncStage, after: SyncStage, sent: int, pushed: int) -> bool {
    before.queue().len() + pushed == after.queue().len() + sent + (after.dropped() - before.dropped())
}

/// A scheduling step takes frames from the front of the queue only: what
/// stays queued is the back part of what was queued, and each frame taken
/// is either released (at most one, counted as released) or dropped.
pub proof fn law_schedule_conserves_frames(
    before: SyncStage,
    after: SyncStage,
    health_before: PipelineHealth,
    health_after: PipelineHealth,
    output: Seq<VideoFrame>,
    audio_pos: i64,
    now: Instant,
)
    requires
        scheduled(before, after, health_before, health_after, output, audio_pos, now),
    ensures
        after.queue().len() <= before.queue().len(),
        after.queue() == before.queue().skip(before.queue().len() - after.queue().len()),
        frames_accounted(before, after, output.len() as int, 0),
        after.released() - before.released() == output.len(),
        output.len() <= 1,
        output.len() == 1 ==> exists|k: int|
            0 <= k < before.queue().len() - after.queue().len() && output[0]
                == #[trigger] before.queue()[k].frame,
{
    let q = before.queue();
    let cfg = before.config();
    let started = before.tracker().has_started();
    if !still_buffering(started, before.playout_started_at(), now, cfg.playout_delay) {
        let plan = sync_plan(
            q,
            started,
            audio_pos as int,
            as_signed(cfg.frame_tolerance.micros),
            as_signed(cfg.max_drift.micros),
        );
        let c = plan_consumed(plan) as int;
        let rest = q.skip(c);
        let t = excess(rest.len(), cfg.max_video_queue) as int;
        assert(after.queue() =~= q.skip(c + t));
        if plan.1 {
            assert(output[0] == q[plan.0 as int].frame);
        }
    } else {
        assert(q.skip(0) =~= q);
    }
}

/// Without audio, once the playout delay has run out (or playout has not
/// been timed), a scheduling step at `now` passes the front frame through:
/// it releases exactly that frame and counts it as released.
pub proof fn law_passthrough_without_audio(
    before: SyncStage,
    after: SyncStage,
    health_before: PipelineHealth,
    health_after: PipelineHealth,
    output: Seq<VideoFrame>,
    audio_pos: i64,
    now: Instant,
)
    requires
        scheduled(before, after, health_before, health_after, output, audio_pos, now),
        !before.tracker().has_started(),
        before.queue().len() > 0,
        before.playout_started_at() matches Some(start) ==> span_between(now, start)
            >= before.config().playout_delay.micros,
    ensures
        output == seq![before.queue()[0].frame],
        after.released() == before.released() + 1,
        after.queue() == before.queue().skip(before.queue().len() - after.queue().len()),
        after.queue().len() < before.queue().len(),
{
}

/// Without audio, while the playout delay runs, a scheduling step at `now`
/// releases nothing, drops nothing and leaves the queue as it was.
pub proof fn law_playout_delay_holds_frames(
    before: SyncStage,
    after: SyncStage,
    health_before: PipelineHealth,
    health_after: PipelineHealth,
    output: Seq<VideoFrame>,
    audio_pos: i64,
    now: Instant,
    start: Instant,
)
    requires
        scheduled(before, after, health_before, health_after, output, audio_pos, now),
        !before.tracker().has_started(),
        before.playout_started_at() == Some(start),
        span_between(now, start) < before.config().playout_delay.micros,
    ensures
        output.len() == 0,
        after.queue() == before.queue(),
        after.released() == before.released(),
        after.dropped() == before.dropped(),
{
}

/// Pushing a frame adds it at the back of the queue and drops nothing.
pub proof fn law_push_accounts_frame(before: SyncStage, after: SyncStage, frame: TimedVideoFrame)
    requires
        after.queue() == before.queue().push(frame),
        after.dropped() == before.dropped(),
    ensures
        frames_accounted(before, after, 0, 1),
{
}

/// Taking the front frame to send it (when the stage flushes at the end of
/// its input) accounts for it as sent.
pub proof fn law_flush_accounts_frame(before: SyncStage, after: SyncStage)
    requires
        before.queue().len() > 0,
        after.queue() == before.queue().drop_first(),
        after.dropped() == before.dropped(),
    ensures
        frames_accounted(before, after, 1, 0),
{
}

/// The sum of a run of counts.
pub open spec fn total(counts: Seq<int>) -> int
    decreases counts.len(),
{
    if counts.len() == 0 {
        0
    } else {
        total(counts.drop_last()) + counts.last()
    }
}

/// Over a run of steps, each of which accounts for its frames, every frame
/// is accounted for: the frames queued at the start plus all pushed are the
/// frames still queued, all sent and all dropped. A run that starts and ends
/// with an empty queue sent or dropped each pushed frame exactly once.
pub proof fn law_run_conserves_frames(stages: Seq<SyncStage>, sent: Seq<int>, pushed: Seq<int>)
    requires
        stages.len() == sent.len() + 1,
        sent.len() == pushed.len(),
        forall|k: int|
            0 <= k < sent.len() ==> frames_accounted(
                #[trigger] stages[k],
                stages[k + 1],
                sent[k],
                pushed[k],
            ),
    ensures
        frames_accounted(stages[0], stages.last(), total(sent), total(pushed)),
    decreases sent.len(),
{
    if sent.len() > 0 {
        let n = sent.len() as int;
        let prefix = stages.drop_last();
        assert forall|k: int| 0 <= k < sent.drop_last().len() implies frames_accounted(
            #[trigger] prefix[k],
            prefix[k + 1],
            sent.drop_last()[k],
            pushed.drop_last()[k],
        ) by {
            assert(prefix[k] == stages[k] && prefix[k + 1] == stages[k + 1]);
        }
        law_run_conserves_frames(prefix, sent.drop_last(), pushed.drop_last());
        assert(frames_accounted(stages[n - 1], stages[n], sent[n - 1], pushed[n - 1]));
        assert(prefix.last() == stages[n - 1]);
    }
}

/// The released and dropped counters leave no room for a scheduling step.
pub open spec fn counters_full(stage: SyncStage) -> bool {
    stage.released() == u64::MAX || stage.dropped() + stage.queue().len() > u64::MAX
}

/// What a scheduling step with audio read at `audio_pos` at `now` gives:
/// where the stage can be scheduled at that position, the released frames
/// and the step that `scheduled` describes; otherwise nothing, with stage
/// and health metrics unchanged.
pub open spec fn queue_outcome(
    before: SyncStage,
    after: SyncStage,
    health_before: PipelineHealth,
    health_after: PipelineHealth,
    r: Option<Vec<VideoFrame>>,
    audio_pos: i64,
    now: Instant,
) -> bool {
    if schedulable(before, audio_pos) {
        r matches Some(out) && scheduled(
            before,
            after,
            health_before,
            health_after,
            out@,
            audio_pos,
            now,
        )
    } else {
        &&& r is None
        &&& after == before
        &&& health_after == health_before
    }
}

/// One scheduling step took `before` to `after`, the health metrics from
/// `health_before` to `health_after`, and released `output`, for some audio
/// position at which the stage could be scheduled and some moment.
pub open spec fn scheduled_step(
    before: SyncStage,
    after: SyncStage,
    health_before: PipelineHealth,
    health_after: PipelineHealth,
    output: Seq<VideoFrame>,
) -> bool {
    exists|audio_pos: i64, now: Instant|
        schedulable(before, audio_pos) && #[trigger] scheduled(
            before,
            after,
            health_before,
            health_after,
            output,
            audio_pos,
            now,
        )
}

/// What one scheduling step with audio at `audio_pos` at time `now` does:
/// while the playout delay runs (audio not started) nothing; otherwise the
/// front of the queue is handled as `sync_plan` says, the released frame (if
/// any) is the output, the queue is trimmed to capacity from its oldest end,
/// and every dropped frame is counted by the stage and in the health
/// metrics. The tracker, configuration and playout start stay.
pub open spec fn scheduled(
    before: SyncStage,
    after: SyncStage,
    health_before: PipelineHealth,
    health_after: PipelineHealth,
    output: Seq<VideoFrame>,
    audio_pos: i64,
    now: Instant,
) -> bool {
    let q = before.queue();
    let cfg = before.config();
    let started = before.tracker().has_started();
    &&& if still_buffering(started, before.playout_started_at(), now, cfg.playout_delay) {
        &&& output == Seq::<VideoFrame>::empty()
        &&& after.queue() == q
        &&& after.released() == before.released()
        &&& after.dropped() == before.dropped()
        &&& health_after == health_before
    } else {
        let plan = sync_plan(
            q,
            started,
            audio_pos as int,
            as_signed(cfg.frame_tolerance.micros),
            as_signed(cfg.max_drift.micros),
        );
        let rest = q.skip(plan_consumed(plan) as int);
        let trimmed = excess(rest.len(), cfg.max_video_queue);
        &&& plan_consumed(plan) <= q.len()
        &&& output == if plan.1 {
            seq![q[plan.0 as int].frame]
        } else {
            Seq::<VideoFrame>::empty()
        }
        &&& after.queue() == rest.skip(trimmed as int)
        &&& after.released() == before.released() + if plan.1 {
            1int
        } else {
            0int
        }
        &&& after.dropped() == before.dropped() + plan.0 + trimmed
        &&& health_after.frame_drops == (health_before.frame_drops + plan.0 + trimmed)
            % 0x1_0000_0000_0000_0000
        &&& health_after == (PipelineHealth {
            frame_drops: health_after.frame_drops,
            ..health_before
        })
    }
    &&& after.tracker() == before.tracker()
    &&& after.config() == before.config()
    &&& after.playout_started_at() == before.playout_started_at()
}

impl SyncStage {
    /// The queued video frames, front first.
    pub closed spec fn queue(&self) -> Seq<TimedVideoFrame> {
        self.video_queue@
    }

    pub closed spec fn tracker(&self) -> &AudioPlaybackTracker {
        &self.audio_tracker
    }

    pub closed spec fn config(&self) -> SyncConfig {
        self.config
    }

    /// When playout started, once the stage runs.
    pub closed spec fn playout_started_at(&self) -> Option<Instant> {
        self.playout_start
    }

    pub closed spec fn released(&self) -> u64 {
        self.frames_released
    }

    pub closed spec fn dropped(&self) -> u64 {
        self.frames_dropped
    }

    /// A stage with an empty queue, audio not started and playout not begun.
    pub fn new(config: SyncConfig) -> (s: Self)
        ensures
            s.queue() == Seq::<TimedVideoFrame>::empty(),
            !s.tracker().has_started(),
            s.config() == config,
            s.playout_started_at() is None,
            s.released() == 0,
            s.dropped() == 0,
    {
        SyncStage {
            video_queue: VecDeque::with_capacity(config.max_video_queue),
            audio_tracker: AudioPlaybackTracker::new(),
            config,
            playout_start: None,
            frames_released: 0,
            frames_dropped: 0,
        }
    }

    /// The shared audio position cell.
    pub fn audio_position_ref(&self) -> (r: Arc<AtomicI64>)
        ensures
            r == self.tracker().position_cell(),
    {
        self.audio_tracker.position_ref()
    }

    /// The audio playback tracker.
    pub fn audio_tracker(&self) -> (t: &AudioPlaybackTracker)
        ensures
            t == self.tracker(),
    {
        &self.audio_tracker
    }

    /// Marks audio playback as started: from now on video follows audio.
    pub fn mark_audio_started(&mut self)
        ensures
            final(self).tracker().has_started(),
            final(self).tracker().position_cell() == old(self).tracker().position_cell(),
            final(self).queue() == old(self).queue(),
            final(self).config() == old(self).config(),
            final(self).playout_started_at() == old(self).playout_started_at(),
            final(self).released() == old(self).released(),
            final(self).dropped() == old(self).dropped(),
    {
        self.audio_tracker.mark_started();
    }

    /// Starts the playout delay at `at`.
    pub fn start_playout(&mut self, at: Instant)
        ensures
            final(self).playout_started_at() == Some(at),
            final(self).queue() == old(self).queue(),
            final(self).tracker() == old(self).tracker(),
            final(self).config() == old(self).config(),
            final(self).released() == old(self).released(),
            final(self).dropped() == old(self).dropped(),
    {
        self.playout_start = Some(at);
    }

    /// Appends a decoded frame to the video queue.
    pub fn push_video_frame(&mut self, frame: TimedVideoFrame)
        ensures
            final(self).queue() == old(self).queue().push(frame),
            pts_ordered(old(self).queue()) && (old(self).queue().len() == 0
                || old(self).queue().last().pts.micros <= frame.pts.micros) ==> pts_ordered(
                final(self).queue(),
            ),
            final(self).tracker() == old(self).tracker(),
            final(self).config() == old(self).config(),
            final(self).playout_started_at() == old(self).playout_started_at(),
            final(self).released() == old(self).released(),
            final(self).dropped() == old(self).dropped(),
    {
        self.video_queue.push_back(frame);
    }

    /// Takes the frame at the front of the queue (for flushing at shutdown).
    pub fn pop_video_frame(&mut self) -> (f: Option<TimedVideoFrame>)
        ensures
            old(self).queue().len() == 0 ==> f is None && final(self).queue() == old(self).queue(),
            old(self).queue().len() > 0 ==> f == Some(old(self).queue()[0]) && final(self).queue()
                == old(self).queue().drop_first(),
            final(self).tracker() == old(self).tracker(),
            final(self).config() == old(self).config(),
            final(self).playout_started_at() == old(self).playout_started_at(),
            final(self).released() == old(self).released(),
            final(self).dropped() == old(self).dropped(),
    {
        let f = self.video_queue.pop_front();
        proof {
            if old(self).queue().len() > 0 {
                assert(self.video_queue@ =~= old(self).queue().drop_first());
            }
        }
        f
    }

    /// Releases the video frames that are due with audio at `audio_pos` at
    /// time `now`, drops frames that fell too far behind audio, and trims the
    /// queue to its capacity by dropping its oldest frames. Nothing happens
    /// while the initial playout delay runs and audio has not started.
    pub fn process_video_queue_at(
        &mut self,
        audio_pos: i64,
        now: Instant,
        health: &mut PipelineHealth,
    ) -> (output: Vec<VideoFrame>)
        requires
            schedulable(*old(self), audio_pos),
        ensures
            scheduled(*old(self), *final(self), *old(health), *final(health), output@, audio_pos, now),
    {
        let mut output: Vec<VideoFrame> = Vec::new();
        let started = self.audio_tracker.is_started();
        if !started {
            if let Some(start) = self.playout_start {
                if now.saturating_duration_since(start).micros < self.config.playout_delay.micros {
                    return output;
                }
            }
        }
        let tolerance_us = reinterpret_as_i64(self.config.frame_tolerance.micros);
        let max_drift_us = reinterpret_as_i64(self.config.max_drift.micros);
        let mut q: VecDeque<TimedVideoFrame> = VecDeque::new();
        std::mem::swap(&mut q, &mut self.video_queue);
        let ghost orig = q@;
        let ghost old_dropped = self.frames_dropped as int;
        let ghost old_released = self.frames_released as int;
        let ghost old_health = *health;
        let ghost goal = sync_plan(orig, started, audio_pos as int, tolerance_us as int, max_drift_us as int);
        let ghost mut late: nat = 0;
        proof {
            lemma_audio_sync_plan_bound(orig, audio_pos as int, tolerance_us as int, max_drift_us as int);
            vstd::arithmetic::div_mod::lemma_small_mod(old_health.frame_drops as nat, 0x1_0000_0000_0000_0000nat);
        }
        loop
            invariant_except_break
                q@ == orig.skip(late as int),
                output@ == Seq::<VideoFrame>::empty(),
                started ==> goal == (late + audio_sync_plan(q@, audio_pos as int, tolerance_us as int, max_drift_us as int).0,
                    audio_sync_plan(q@, audio_pos as int, tolerance_us as int, max_drift_us as int).1),
                self.frames_released == old_released,
            invariant
                goal == sync_plan(orig, started, audio_pos as int, tolerance_us as int, max_drift_us as int),
                plan_consumed(goal) <= orig.len(),
                old_dropped + orig.len() <= u64::MAX,
                old_released < u64::MAX,
                old_health.frame_drops >= 0,
                started ==> drifts_fit(orig, audio_pos),
                started ==> i64::MIN <= audio_pos + tolerance_us <= i64::MAX,
                late <= orig.len(),
                !started ==> late == 0,
                self.frames_dropped == old_dropped + late,
                self.audio_tracker == old(self).audio_tracker,
                self.config == old(self).config,
                self.playout_start == old(self).playout_start,
                health.frame_drops == (old_health.frame_drops + late) % 0x1_0000_0000_0000_0000,
                *health == (PipelineHealth { frame_drops: health.frame_drops, ..old_health }),
            ensures
                q@ == orig.skip(plan_consumed(goal) as int),
                output@ == if goal.1 {
                    seq![orig[goal.0 as int].frame]
                } else {
                    Seq::<VideoFrame>::empty()
                },
                self.frames_dropped == old_dropped + goal.0,
                self.frames_released == old_released + if goal.1 { 1int } else { 0int },
                health.frame_drops == (old_health.frame_drops + goal.0) % 0x1_0000_0000_0000_0000,
                *health == (PipelineHealth { frame_drops: health.frame_drops, ..old_health }),
            decreases q@.len(),
        {
            if q.len() == 0 {
                break;
            }
            let pts = q[0].pts.micros;
            if started {
                if pts <= audio_pos + tolerance_us {
                    let ghost before = q@;
                    let frame = q.pop_front().unwrap();
                    proof {
                        assert(before.drop_first() =~= q@);
                        assert(orig.skip(late as int).drop_first() =~= orig.skip(late + 1int));
                        assert(frame == orig[late as int]);
                        assert(drifts_fit(orig, audio_pos));
                        assert(orig[late as int] == orig[late as int]);
                    }
                    if audio_pos - pts > max_drift_us {
                        proof {
                            lemma_wrap_count(health.frame_drops, old_health.frame_drops as int, late);
                        }
                        self.frames_dropped = self.frames_dropped + 1;
                        health.record_frame_drop();
                        proof {
                            late = late + 1;
                        }
                        continue;
                    }
                    self.frames_released = self.frames_released + 1;
                    output.push(frame.frame);
                    break;
                } else {
                    break;
                }
            } else {
                let ghost before = q@;
                let frame = q.pop_front().unwrap();
                proof {
                    assert(before.drop_first() =~= q@);
                    assert(orig.skip(1) =~= orig.drop_first());
                }
                self.frames_released = self.frames_released + 1;
                output.push(frame.frame);
                break;
            }
        }
        let ghost after_release = q@;
        let ghost mut trimmed: nat = 0;
        while q.len() > self.config.max_video_queue
            invariant
                goal == sync_plan(orig, started, audio_pos as int, tolerance_us as int, max_drift_us as int),
                plan_consumed(goal) <= orig.len(),
                after_release == orig.skip(plan_consumed(goal) as int),
                old_dropped + orig.len() <= u64::MAX,
                old_health.frame_drops >= 0,
                trimmed <= after_release.len(),
                q@ == after_release.skip(trimmed as int),
                trimmed <= excess(after_release.len(), self.config.max_video_queue),
                self.audio_tracker == old(self).audio_tracker,
                self.config == old(self).config,
                self.playout_start == old(self).playout_start,
                self.frames_released == old_released + if goal.1 { 1int } else { 0int },
                self.frames_dropped == old_dropped + goal.0 + trimmed,
                health.frame_drops == (old_health.frame_drops + goal.0 + trimmed) % 0x1_0000_0000_0000_0000,
                *health == (PipelineHealth { frame_drops: health.frame_drops, ..old_health }),
            ensures
                trimmed == excess(after_release.len(), self.config.max_video_queue),
                q@ == after_release.skip(trimmed as int),
                self.frames_dropped == old_dropped + goal.0 + trimmed,
                health.frame_drops == (old_health.frame_drops + goal.0 + trimmed) % 0x1_0000_0000_0000_0000,
                *health == (PipelineHealth { frame_drops: health.frame_drops, ..old_health }),
            decreases q@.len(),
        {
            let ghost before = q@;
            q.pop_front();
            proof {
                assert(before.drop_first() =~= q@);
                assert(after_release.skip(trimmed as int).drop_first() =~= after_release.skip(trimmed + 1int));
                lemma_wrap_count(health.frame_drops, old_health.frame_drops as int, goal.0 + trimmed);
            }
            self.frames_dropped = self.frames_dropped + 1;
            health.record_frame_drop();
            proof {
                trimmed = trimmed + 1;
            }
        }
        self.video_queue = q;
        output
    }

    /// Releases the due video frames now, with audio at the position last
    /// stored by the audio task (see `process_video_queue_at`). Returns
    /// `None`, changing nothing, when that position or the counters are so
    /// extreme that the arithmetic would leave 64 bits.
    pub fn process_video_queue(&mut self, health: &mut PipelineHealth) -> (r: Option<Vec<VideoFrame>>)
        ensures
            r is None ==> {
                &&& final(self).queue() == old(self).queue()
                &&& final(self).released() == old(self).released()
                &&& final(self).dropped() == old(self).dropped()
                &&& final(self).tracker() == old(self).tracker()
                &&& final(self).config() == old(self).config()
                &&& final(self).playout_started_at() == old(self).playout_started_at()
                &&& *final(health) == *old(health)
            },
            (forall|pos: i64| #[trigger] schedulable(*old(self), pos)) ==> r is Some,
            counters_full(*old(self)) ==> r is None,
            exists|audio_pos: i64, now: Instant|
                #[trigger] queue_outcome(
                    *old(self),
                    *final(self),
                    *old(health),
                    *final(health),
                    r,
                    audio_pos,
                    now,
                ),
            r matches Some(out) ==> scheduled_step(
                *old(self),
                *final(self),
                *old(health),
                *final(health),
                out@,
            ),
    {
        let audio_pos = self.audio_tracker.position();
        let now = Instant::now();
        let len = self.video_queue.len();
        if self.frames_released == u64::MAX || self.frames_dropped > u64::MAX - len as u64 {
            let result: Option<Vec<VideoFrame>> = None;
            proof {
                assert(!schedulable(*old(self), audio_pos));
                assert(queue_outcome(*old(self), *self, *old(health), *health, result, audio_pos, now));
            }
            return result;
        }
        if self.audio_tracker.is_started() {
            let tolerance_us = reinterpret_as_i64(self.config.frame_tolerance.micros);
            if audio_pos.checked_add(tolerance_us).is_none() {
                let result: Option<Vec<VideoFrame>> = None;
                proof {
                    assert(!schedulable(*old(self), audio_pos));
                    assert(queue_outcome(*old(self), *self, *old(health), *health, result, audio_pos, now));
                }
                return result;
            }
            let mut i: usize = 0;
            while i < len
                invariant
                    *self == *old(self),
                    *health == *old(health),
                    old(self).tracker().has_started(),
                    len == self.video_queue@.len(),
                    i <= len,
                    forall|j: int|
                        0 <= j < i ==> i64::MIN <= audio_pos - #[trigger] self.video_queue@[j].pts.micros
                            <= i64::MAX,
                decreases len - i,
            {
                if audio_pos.checked_sub(self.video_queue[i].pts.micros).is_none() {
                    let result: Option<Vec<VideoFrame>> = None;
                    proof {
                        assert(!drifts_fit(self.video_queue@, audio_pos));
                        assert(!schedulable(*old(self), audio_pos));
                        assert(queue_outcome(*old(self), *self, *old(health), *health, result, audio_pos, now));
                    }
                    return result;
                }
                i = i + 1;
            }
        }
        let ghost health_before = *health;
        proof {
            assert(schedulable(*old(self), audio_pos));
        }
        let out = self.process_video_queue_at(audio_pos, now, health);
        proof {
            assert(health_before == *old(health));
            assert(scheduled(*old(self), *self, *old(health), *health, out@, audio_pos, now));
            assert(scheduled_step(*old(self), *self, *old(health), *health, out@));
        }
        let result = Some(out);
        proof {
            assert(queue_outcome(*old(self), *self, *old(health), *health, result, audio_pos, now));
        }
        result
    }

    /// The number of queued frames.
    pub fn queue_len(&self) -> (n: usize)
        ensures
            n == self.queue().len(),
    {
        self.video_queue.len()
    }

    /// The number of frames released so far.
    pub fn frames_released(&self) -> (n: u64)
        ensures
            n == self.released(),
    {
        self.frames_released
    }

    /// The number of frames dropped so far.
    pub fn frames_dropped(&self) -> (n: u64)
        ensures
            n == self.dropped(),
    {
        self.frames_dropped
    }
}

} // verus!
