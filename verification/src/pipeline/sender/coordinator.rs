//! Sender pipeline coordinator: the lifecycle and toggles of the sender
//! (capture → encode → transmit). Each method decides; the caller performs
//! the capture, audio and network work that the decision calls for.

use vstd::prelude::*;

use crate::pipeline::clock::MediaClock;
use crate::pipeline::health::PipelineHealth;
use crate::pipeline::state::{transition_allowed, PipelineState};
use crate::pipeline::time::Instant;

verus! {

/// The sender pipeline's clock, health, lifecycle state and toggles.
pub struct SenderCoordinator {
    clock: MediaClock,
    health: PipelineHealth,
    state: PipelineState,
    audio_muted: bool,
    blank_screen: bool,
    initialized: bool,
}

/// The state `start` leaves behind: Running from `now`, unless the current
/// state may not move to Running and is not Idle.
pub open spec fn started_state(state: PipelineState, now: Instant) -> PipelineState {
    if !transition_allowed(state, PipelineState::Running { started_at: now })
        && state != PipelineState::Idle {
        state
    } else {
        PipelineState::Running { started_at: now }
    }
}

impl SenderCoordinator {
    pub closed spec fn clock_view(&self) -> MediaClock {
        self.clock
    }

    pub closed spec fn health_view(&self) -> PipelineHealth {
        self.health
    }

    pub closed spec fn state_view(&self) -> PipelineState {
        self.state
    }

    pub closed spec fn muted(&self) -> bool {
        self.audio_muted
    }

    pub closed spec fn blanked(&self) -> bool {
        self.blank_screen
    }

    pub closed spec fn is_initialized(&self) -> bool {
        self.initialized
    }

    /// An idle sender with a fresh clock and fresh health metrics.
    pub fn new() -> (c: Self)
        ensures
            c.state_view() == PipelineState::Idle,
            !c.muted(),
            !c.blanked(),
            !c.is_initialized(),
            c.clock_view().video_shift() == 0,
            c.clock_view().audio_shift() == 0,
            c.clock_view().counter() == 0,
            c.health_view().frames_processed == 0,
            c.health_view().frame_drops == 0,
            c.health_view().decode_failures == 0,
            c.health_view().network_errors == 0,
            c.health_view().bytes_processed == 0,
            c.health_view().keyframes_processed == 0,
    {
        SenderCoordinator {
            clock: MediaClock::new(),
            health: PipelineHealth::new(),
            state: PipelineState::Idle,
            audio_muted: false,
            blank_screen: false,
            initialized: false,
        }
    }

    /// The pipeline clock.
    pub fn clock(&self) -> (c: &MediaClock)
        ensures
            *c == self.clock_view(),
    {
        &self.clock
    }

    /// The pipeline health metrics.
    pub fn health(&self) -> (h: &PipelineHealth)
        ensures
            *h == self.health_view(),
    {
        &self.health
    }

    /// The clock and the health metrics, for the encode stage to stamp and
    /// count frames with.
    pub fn clock_and_health_mut(&mut self) -> (r: (&mut MediaClock, &mut PipelineHealth))
        ensures
            *r.0 == old(self).clock_view(),
            *r.1 == old(self).health_view(),
            final(self).clock_view() == *final(r.0),
            final(self).health_view() == *final(r.1),
            final(self).state_view() == old(self).state_view(),
            final(self).muted() == old(self).muted(),
            final(self).blanked() == old(self).blanked(),
            final(self).is_initialized() == old(self).is_initialized(),
    {
        (&mut self.clock, &mut self.health)
    }

    /// The current pipeline state.
    pub fn state(&self) -> (s: &PipelineState)
        ensures
            *s == self.state_view(),
    {
        &self.state
    }

    /// Lazy initialization at `now`: the first call returns `true` (the
    /// caller then starts capture, discovery and audio) and leaves the
    /// pipeline running; later calls return `false` and change nothing.
    pub fn initialize_at(&mut self, now: Instant) -> (first: bool)
        ensures
            first == !old(self).is_initialized(),
            first ==> final(self).state_view() == (PipelineState::Running { started_at: now })
                && final(self).is_initialized(),
            !first ==> final(self).state_view() == old(self).state_view()
                && final(self).is_initialized(),
            final(self).muted() == old(self).muted(),
            final(self).blanked() == old(self).blanked(),
            final(self).clock_view() == old(self).clock_view(),
            final(self).health_view() == old(self).health_view(),
    {
        if self.initialized {
            return false;
        }
        self.state = PipelineState::Initializing;
        self.initialized = true;
        self.state = PipelineState::Running { started_at: now };
        true
    }

    /// Starts streaming at `now`.
    pub fn start_at(&mut self, now: Instant)
        ensures
            final(self).state_view() == started_state(old(self).state_view(), now),
            final(self).muted() == old(self).muted(),
            final(self).blanked() == old(self).blanked(),
            final(self).is_initialized() == old(self).is_initialized(),
            final(self).clock_view() == old(self).clock_view(),
            final(self).health_view() == old(self).health_view(),
    {
        let running = PipelineState::Running { started_at: now };
        if !self.state.can_transition_to(&running) && self.state != PipelineState::Idle {
            return;
        }
        self.state = running;
    }

    /// Pauses streaming at `now` if it is running.
    pub fn pause_at(&mut self, now: Instant)
        ensures
            final(self).state_view() == if old(self).state_view() is Running {
                PipelineState::Paused { paused_at: now }
            } else {
                old(self).state_view()
            },
            final(self).muted() == old(self).muted(),
            final(self).blanked() == old(self).blanked(),
            final(self).is_initialized() == old(self).is_initialized(),
            final(self).clock_view() == old(self).clock_view(),
            final(self).health_view() == old(self).health_view(),
    {
        if self.state.is_running() {
            self.state = PipelineState::Paused { paused_at: now };
        }
    }

    /// Resumes streaming at `now` if it is paused.
    pub fn resume_at(&mut self, now: Instant)
        ensures
            final(self).state_view() == if old(self).state_view() is Paused {
                PipelineState::Running { started_at: now }
            } else {
                old(self).state_view()
            },
            final(self).muted() == old(self).muted(),
            final(self).blanked() == old(self).blanked(),
            final(self).is_initialized() == old(self).is_initialized(),
            final(self).clock_view() == old(self).clock_view(),
            final(self).health_view() == old(self).health_view(),
    {
        if self.state.is_paused() {
            self.state = PipelineState::Running { started_at: now };
        }
    }

    /// Stops the pipeline (the caller cancels audio, stops capture and
    /// closes the server): Stopped, not initialized, screen not blanked.
    pub fn stop(&mut self)
        ensures
            final(self).state_view() == PipelineState::Stopped,
            !final(self).is_initialized(),
            !final(self).blanked(),
            final(self).muted() == old(self).muted(),
            final(self).clock_view() == old(self).clock_view(),
            final(self).health_view() == old(self).health_view(),
    {
        self.state = PipelineState::Stopping;
        self.initialized = false;
        self.state = PipelineState::Stopped;
        self.blank_screen = false;
    }

    /// Whether the sender is streaming.
    pub fn is_streaming(&self) -> (r: bool)
        ensures
            r == self.state_view() is Running,
    {
        self.state.is_running()
    }

    /// Whether the screen is blanked.
    pub fn is_blank_screen(&self) -> (r: bool)
        ensures
            r == self.blanked(),
    {
        self.blank_screen
    }

    /// Flips screen blanking; returns the new setting for the capture.
    pub fn toggle_blank_screen(&mut self) -> (blank: bool)
        ensures
            blank == !old(self).blanked(),
            final(self).blanked() == blank,
            final(self).state_view() == old(self).state_view(),
            final(self).muted() == old(self).muted(),
            final(self).is_initialized() == old(self).is_initialized(),
    {
        self.blank_screen = !self.blank_screen;
        self.blank_screen
    }

    /// Whether audio is muted.
    pub fn is_audio_muted(&self) -> (r: bool)
        ensures
            r == self.muted(),
    {
        self.audio_muted
    }

    /// Flips audio muting; returns the new setting: when muted the caller
    /// stops the audio capture, otherwise it starts it again.
    pub fn toggle_audio_mute(&mut self) -> (muted: bool)
        ensures
            muted == !old(self).muted(),
            final(self).muted() == muted,
            final(self).state_view() == old(self).state_view(),
            final(self).blanked() == old(self).blanked(),
            final(self).is_initialized() == old(self).is_initialized(),
    {
        self.audio_muted = !self.audio_muted;
        self.audio_muted
    }
}

/// Starting from Idle skips Initializing: the sender goes straight to
/// Running, which the state machine alone would not allow.
pub proof fn law_start_from_idle(now: Instant)
    ensures
        started_state(PipelineState::Idle, now) == (PipelineState::Running { started_at: now }),
        !transition_allowed(PipelineState::Idle, PipelineState::Running { started_at: now }),
{
}

/// A stopped sender does not start again.
pub proof fn law_stopped_sender_stays_stopped(now: Instant)
    ensures
        started_state(PipelineState::Stopped, now) == PipelineState::Stopped,
{
}

/// Pausing and resuming leaves a running sender running.
pub proof fn law_pause_resume(started: Instant, paused: Instant, resumed: Instant)
    ensures
        transition_allowed(
            PipelineState::Running { started_at: started },
            PipelineState::Paused { paused_at: paused },
        ),
        transition_allowed(
            PipelineState::Paused { paused_at: paused },
            PipelineState::Running { started_at: resumed },
        ),
{
}

} // verus!
