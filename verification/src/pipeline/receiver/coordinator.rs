//! Receiver pipeline coordinator: owns the receiver's clock, health metrics,
//! lifecycle state and the audio playback position used for A/V sync.

use std::sync::atomic::AtomicI64;
use std::sync::Arc;
use vstd::prelude::*;

use crate::pipeline::clock::MediaClock;
use crate::pipeline::health::PipelineHealth;
use crate::pipeline::receiver::sync_stage::share_cell;
use crate::pipeline::state::{transition_allowed, PipelineState};
use crate::pipeline::time::Instant;

verus! {

/// Coordinates the receiver pipeline: Receive → Reorder → Decode → Sync → Display.
pub struct ReceiverCoordinator {
    clock: MediaClock,
    health: PipelineHealth,
    state: PipelineState,
    audio_position: Arc<AtomicI64>,
}

impl ReceiverCoordinator {
    pub closed spec fn clock_view(&self) -> MediaClock {
        self.clock
    }

    pub closed spec fn health_view(&self) -> PipelineHealth {
        self.health
    }

    pub closed spec fn state_view(&self) -> PipelineState {
        self.state
    }

    /// The shared audio playback position.
    pub closed spec fn position_cell(&self) -> Arc<AtomicI64> {
        self.audio_position
    }

    /// An idle coordinator with a fresh clock and fresh health metrics.
    pub fn new() -> (c: Self)
        ensures
            c.state_view() == PipelineState::Idle,
            c.clock_view().video_shift() == 0,
            c.clock_view().audio_shift() == 0,
            c.clock_view().counter() == 0,
            c.health_view().frames_processed == 0,
            c.health_view().frame_drops == 0,
            c.health_view().decode_failures == 0,
            c.health_view().network_errors == 0,
            c.health_view().bytes_processed == 0,
            c.health_view().keyframes_processed == 0,
    {
        ReceiverCoordinator {
            clock: MediaClock::new(),
            health: PipelineHealth::new(),
            state: PipelineState::Idle,
            audio_position: Arc::new(AtomicI64::new(0)),
        }
    }

    /// The pipeline clock.
    pub fn clock(&self) -> (c: &MediaClock)
        ensures
            *c == self.clock_view(),
    {
        &self.clock
    }

    /// The pipeline clock, for the stages to stamp frames with.
    pub fn clock_mut(&mut self) -> (c: &mut MediaClock)
        ensures
            *c == old(self).clock_view(),
            final(self).clock_view() == *final(c),
            final(self).state_view() == old(self).state_view(),
            final(self).health_view() == old(self).health_view(),
            final(self).position_cell() == old(self).position_cell(),
    {
        &mut self.clock
    }

    /// The pipeline health metrics.
    pub fn health(&self) -> (h: &PipelineHealth)
        ensures
            *h == self.health_view(),
    {
        &self.health
    }

    /// The pipeline health metrics, for the stages to record into.
    pub fn health_mut(&mut self) -> (h: &mut PipelineHealth)
        ensures
            *h == old(self).health_view(),
            final(self).health_view() == *final(h),
            final(self).state_view() == old(self).state_view(),
            final(self).clock_view() == old(self).clock_view(),
            final(self).position_cell() == old(self).position_cell(),
    {
        &mut self.health
    }

    /// The clock and the health metrics together, for the decode stage to
    /// stamp and count frames with.
    pub fn clock_and_health_mut(&mut self) -> (r: (&mut MediaClock, &mut PipelineHealth))
        ensures
            *r.0 == old(self).clock_view(),
            *r.1 == old(self).health_view(),
            final(self).clock_view() == *final(r.0),
            final(self).health_view() == *final(r.1),
            final(self).state_view() == old(self).state_view(),
            final(self).position_cell() == old(self).position_cell(),
    {
        (&mut self.clock, &mut self.health)
    }

    /// The current pipeline state.
    pub fn state(&self) -> (s: &PipelineState)
        ensures
            *s == self.state_view(),
    {
        &self.state
    }

    /// The audio playback position cell, shared with the audio task.
    pub fn audio_position_ref(&self) -> (r: Arc<AtomicI64>)
        ensures
            r == self.position_cell(),
    {
        share_cell(&self.audio_position)
    }

    /// The launch begins: the pipeline is initializing.
    pub fn begin_launch(&mut self)
        ensures
            final(self).state_view() == PipelineState::Initializing,
            final(self).clock_view() == old(self).clock_view(),
            final(self).health_view() == old(self).health_view(),
            final(self).position_cell() == old(self).position_cell(),
    {
        self.state = PipelineState::Initializing;
    }

    /// The stages are wired and spawned: the pipeline runs since `now`.
    pub fn finish_launch(&mut self, now: Instant)
        ensures
            final(self).state_view() == (PipelineState::Running { started_at: now }),
            final(self).clock_view() == old(self).clock_view(),
            final(self).health_view() == old(self).health_view(),
            final(self).position_cell() == old(self).position_cell(),
    {
        self.state = PipelineState::Running { started_at: now };
    }

    /// Stops the pipeline: through Stopping to Stopped. The stages end when
    /// their input channels close.
    pub fn stop(&mut self)
        ensures
            final(self).state_view() == PipelineState::Stopped,
            final(self).clock_view() == old(self).clock_view(),
            final(self).health_view() == old(self).health_view(),
            final(self).position_cell() == old(self).position_cell(),
    {
        self.state = PipelineState::Stopping;
        self.state = PipelineState::Stopped;
    }
}

impl Default for ReceiverCoordinator {
    fn default() -> (c: Self)
        ensures
            c.state_view() == PipelineState::Idle,
    {
        Self::new()
    }
}

/// The launch follows the state machine: Idle → Initializing → Running.
pub proof fn law_launch_follows_state_machine(now: Instant)
    ensures
        transition_allowed(PipelineState::Idle, PipelineState::Initializing),
        transition_allowed(PipelineState::Initializing, PipelineState::Running { started_at: now }),
{
}

/// Stopping a running or paused pipeline follows the state machine:
/// through Stopping to Stopped.
pub proof fn law_stop_follows_state_machine(from: PipelineState)
    requires
        from is Running || from is Paused || from is Initializing,
    ensures
        transition_allowed(from, PipelineState::Stopping),
        transition_allowed(PipelineState::Stopping, PipelineState::Stopped),
{
}

} // verus!
