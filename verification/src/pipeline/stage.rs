//! Lifecycle of a pipeline of stages: the state and health metrics the
//! stages share. Running and shutting the stages down is the caller's part;
//! the coordinator records where the lifecycle stands.

use vstd::prelude::*;

use crate::pipeline::health::PipelineHealth;
use crate::pipeline::state::PipelineState;
use crate::pipeline::time::Instant;

verus! {

/// The shared state and health metrics of a pipeline.
pub struct PipelineCoordinator {
    state: PipelineState,
    health: PipelineHealth,
}

impl PipelineCoordinator {
    pub closed spec fn state_view(&self) -> PipelineState {
        self.state
    }

    pub closed spec fn health_view(&self) -> PipelineHealth {
        self.health
    }

    /// An idle pipeline with fresh health metrics.
    pub fn new() -> (c: Self)
        ensures
            c.state_view() == PipelineState::Idle,
            c.health_view().frames_processed == 0,
            c.health_view().frame_drops == 0,
            c.health_view().decode_failures == 0,
            c.health_view().network_errors == 0,
            c.health_view().bytes_processed == 0,
            c.health_view().keyframes_processed == 0,
    {
        PipelineCoordinator { state: PipelineState::Idle, health: PipelineHealth::new() }
    }

    /// The current pipeline state.
    pub fn state(&self) -> (s: PipelineState)
        ensures
            s == self.state_view(),
    {
        self.state
    }

    /// The health metrics.
    pub fn health(&self) -> (h: &PipelineHealth)
        ensures
            *h == self.health_view(),
    {
        &self.health
    }

    /// Starts the pipeline: it runs since `now`.
    pub fn start_at(&mut self, now: Instant)
        ensures
            final(self).state_view() == (PipelineState::Running { started_at: now }),
            final(self).health_view() == old(self).health_view(),
    {
        self.state = PipelineState::Running { started_at: now };
    }

    /// Starts the pipeline now.
    pub fn start(&mut self)
        ensures
            final(self).state_view() is Running,
            final(self).health_view() == old(self).health_view(),
    {
        self.start_at(Instant::now());
    }

    /// The stop begins: the pipeline is stopping while its stages shut down.
    pub fn begin_stop(&mut self)
        ensures
            final(self).state_view() == PipelineState::Stopping,
            final(self).health_view() == old(self).health_view(),
    {
        self.state = PipelineState::Stopping;
    }

    /// Every stage has shut down: the pipeline is stopped.
    pub fn finish_stop(&mut self)
        ensures
            final(self).state_view() == PipelineState::Stopped,
            final(self).health_view() == old(self).health_view(),
    {
        self.state = PipelineState::Stopped;
    }
}

impl Default for PipelineCoordinator {
    fn default() -> (c: Self)
        ensures
            c.state_view() == PipelineState::Idle,
    {
        Self::new()
    }
}

} // verus!
