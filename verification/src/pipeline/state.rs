//! Pipeline state machine.

use vstd::prelude::*;

use crate::pipeline::time::{span_between, Duration, Instant};

verus! {

/// The state of a pipeline. Transitions are validated so that every stage
/// sees the same lifecycle.
#[derive(Debug, Clone, Copy, PartialEq, Eq, Structural)]
pub enum PipelineState {
    /// Pipeline is idle and not processing
    Idle,
    /// Pipeline is initializing (transitioning to Running)
    Initializing,
    /// Pipeline is actively processing media
    Running {
        /// When the pipeline started running
        started_at: Instant,
    },
    /// Pipeline is paused (can resume to Running)
    Paused {
        /// When the pipeline was paused
        paused_at: Instant,
    },
    /// Pipeline is stopping (transitioning to Stopped)
    Stopping,
    /// Pipeline has stopped and cannot be restarted
    Stopped,
}

/// The transitions the pipeline allows: Idle → Initializing → Running ⇄
/// Paused, Initializing/Running/Paused → Stopping → Stopped, and staying in
/// the same state, except that nothing leaves Stopped.
pub open spec fn transition_allowed(from: PipelineState, to: PipelineState) -> bool {
    match (from, to) {
        (PipelineState::Idle, PipelineState::Initializing) => true,
        (PipelineState::Initializing, PipelineState::Running { .. }) => true,
        (PipelineState::Initializing, PipelineState::Stopping) => true,
        (PipelineState::Running { .. }, PipelineState::Paused { .. }) => true,
        (PipelineState::Running { .. }, PipelineState::Stopping) => true,
        (PipelineState::Paused { .. }, PipelineState::Running { .. }) => true,
        (PipelineState::Paused { .. }, PipelineState::Stopping) => true,
        (PipelineState::Stopping, PipelineState::Stopped) => true,
        (PipelineState::Stopped, _) => false,
        _ => from == to,
    }
}

impl PipelineState {
    /// Whether the pipeline may move from `self` to `target`.
    pub fn can_transition_to(&self, target: &PipelineState) -> (r: bool)
        ensures
            r == transition_allowed(*self, *target),
    {
        match (self, target) {
            (PipelineState::Idle, PipelineState::Initializing) => true,
            (PipelineState::Initializing, PipelineState::Running { .. }) => true,
            (PipelineState::Initializing, PipelineState::Stopping) => true,
            (PipelineState::Running { .. }, PipelineState::Paused { .. }) => true,
            (PipelineState::Running { .. }, PipelineState::Stopping) => true,
            (PipelineState::Paused { .. }, PipelineState::Running { .. }) => true,
            (PipelineState::Paused { .. }, PipelineState::Stopping) => true,
            (PipelineState::Stopping, PipelineState::Stopped) => true,
            (PipelineState::Stopped, _) => false,
            (a, b) => *a == *b,
        }
    }

    /// A human-readable name of the state.
    pub fn description(&self) -> (s: &'static str)
        ensures
            s@ == match *self {
                PipelineState::Idle => "Idle"@,
                PipelineState::Initializing => "Initializing"@,
                PipelineState::Running { .. } => "Running"@,
                PipelineState::Paused { .. } => "Paused"@,
                PipelineState::Stopping => "Stopping"@,
                PipelineState::Stopped => "Stopped"@,
            },
    {
        match self {
            PipelineState::Idle => "Idle",
            PipelineState::Initializing => "Initializing",
            PipelineState::Running { .. } => "Running",
            PipelineState::Paused { .. } => "Paused",
            PipelineState::Stopping => "Stopping",
            PipelineState::Stopped => "Stopped",
        }
    }

    /// Running or paused.
    pub fn is_active(&self) -> (r: bool)
        ensures
            r == (*self is Running || *self is Paused),
    {
        match self {
            PipelineState::Running { .. } | PipelineState::Paused { .. } => true,
            _ => false,
        }
    }

    /// Running.
    pub fn is_running(&self) -> (r: bool)
        ensures
            r == *self is Running,
    {
        match self {
            PipelineState::Running { .. } => true,
            _ => false,
        }
    }

    /// Paused.
    pub fn is_paused(&self) -> (r: bool)
        ensures
            r == *self is Paused,
    {
        match self {
            PipelineState::Paused { .. } => true,
            _ => false,
        }
    }

    /// Stopped or stopping.
    pub fn is_stopped(&self) -> (r: bool)
        ensures
            r == (*self is Stopped || *self is Stopping),
    {
        match self {
            PipelineState::Stopped | PipelineState::Stopping => true,
            _ => false,
        }
    }

    /// How long the pipeline has been running at `now`, if it is running.
    pub fn running_duration_at(&self, now: Instant) -> (d: Option<Duration>)
        ensures
            match *self {
                PipelineState::Running { started_at } => d == Some(
                    Duration { micros: span_between(now, started_at) as u64 },
                ),
                _ => d is None,
            },
    {
        if let PipelineState::Running { started_at } = self {
            Some(now.saturating_duration_since(*started_at))
        } else {
            None
        }
    }

    /// How long the pipeline has been running, if it is running.
    pub fn running_duration(&self) -> (d: Option<Duration>)
        ensures
            (d is Some) == (*self is Running),
    {
        let now = Instant::now();
        self.running_duration_at(now)
    }
}

/// Nothing leaves the Stopped state, not even a self-transition.
pub proof fn law_stopped_is_terminal(target: PipelineState)
    ensures
        !transition_allowed(PipelineState::Stopped, target),
{
}

/// Every state but Stopped may stay where it is.
pub proof fn law_self_transition(s: PipelineState)
    requires
        !(s is Stopped),
    ensures
        transition_allowed(s, s),
{
}

/// A pipeline only starts running from Initializing or Paused, and only stops
/// by way of Stopping.
pub proof fn law_entry_points(from: PipelineState, to: PipelineState)
    requires
        transition_allowed(from, to),
        from != to,
    ensures
        to is Running ==> (from is Initializing || from is Paused),
        to is Stopped ==> from is Stopping,
        to is Initializing ==> from is Idle,
        to is Paused ==> from is Running,
{
}

/// The state predicates partition the states: active means running or
/// paused, and an active pipeline is never stopped.
pub proof fn law_state_predicates(s: PipelineState)
    ensures
        !(s is Running && s is Paused),
        (s is Running || s is Paused) ==> !(s is Stopped || s is Stopping),
{
}


/// The only moves between different states are Idle → Initializing,
/// Initializing → Running or Stopping, Running → Paused or Stopping,
/// Paused → Running or Stopping, and Stopping → Stopped. In particular
/// nothing goes back to Idle or Initializing, and only Stopping reaches
/// Stopped.
pub proof fn law_transitions_are_the_listed_ones(from: PipelineState, to: PipelineState)
    requires
        transition_allowed(from, to),
        from != to,
    ensures
        ({
            ||| from is Idle && to is Initializing
            ||| from is Initializing && to is Running
            ||| from is Initializing && to is Stopping
            ||| from is Running && to is Paused
            ||| from is Running && to is Stopping
            ||| from is Paused && to is Running
            ||| from is Paused && to is Stopping
            ||| from is Stopping && to is Stopped
        }),
        to is Idle ==> false,
        to is Initializing ==> from is Idle,
        to is Stopped ==> from is Stopping,
{
}

/// A state may always stay as it is, except Stopped; and every listed move
/// is allowed.
pub proof fn law_listed_transitions_are_allowed(t: Instant)
    ensures
        transition_allowed(PipelineState::Idle, PipelineState::Initializing),
        transition_allowed(PipelineState::Initializing, PipelineState::Running { started_at: t }),
        transition_allowed(PipelineState::Initializing, PipelineState::Stopping),
        transition_allowed(PipelineState::Running { started_at: t }, PipelineState::Paused { paused_at: t }),
        transition_allowed(PipelineState::Running { started_at: t }, PipelineState::Stopping),
        transition_allowed(PipelineState::Paused { paused_at: t }, PipelineState::Running { started_at: t }),
        transition_allowed(PipelineState::Paused { paused_at: t }, PipelineState::Stopping),
        transition_allowed(PipelineState::Stopping, PipelineState::Stopped),
        !transition_allowed(PipelineState::Running { started_at: t }, PipelineState::Idle),
        !transition_allowed(PipelineState::Paused { paused_at: t }, PipelineState::Idle),
        !transition_allowed(PipelineState::Stopping, PipelineState::Running { started_at: t }),
{
}

} // verus!
