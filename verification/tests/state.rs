use castify::pipeline::state::PipelineState;
use castify::pipeline::time::{Duration, Instant};

#[test]
fn test_valid_transitions() {
    let idle = PipelineState::Idle;
    let initializing = PipelineState::Initializing;
    let running = PipelineState::Running {
        started_at: Instant::now(),
    };
    let paused = PipelineState::Paused {
        paused_at: Instant::now(),
    };
    let stopping = PipelineState::Stopping;
    let stopped = PipelineState::Stopped;

    // Valid transitions
    assert!(idle.can_transition_to(&initializing));
    assert!(initializing.can_transition_to(&running));
    assert!(running.can_transition_to(&paused));
    assert!(paused.can_transition_to(&running));
    assert!(running.can_transition_to(&stopping));
    assert!(paused.can_transition_to(&stopping));
    assert!(stopping.can_transition_to(&stopped));

    // Self-transitions
    assert!(idle.can_transition_to(&idle));
    assert!(running.can_transition_to(&running));
}

#[test]
fn test_invalid_transitions() {
    let idle = PipelineState::Idle;
    let running = PipelineState::Running {
        started_at: Instant::now(),
    };
    let stopped = PipelineState::Stopped;

    // Invalid transitions
    assert!(!idle.can_transition_to(&running)); // Must go through Initializing
    assert!(!idle.can_transition_to(&stopped)); // Can't stop from idle
    assert!(!stopped.can_transition_to(&running)); // Can't restart after stopped
    assert!(!stopped.can_transition_to(&idle)); // Can't reset to idle
}

#[test]
fn test_state_checks() {
    let running = PipelineState::Running {
        started_at: Instant::now(),
    };
    let paused = PipelineState::Paused {
        paused_at: Instant::now(),
    };
    let stopped = PipelineState::Stopped;

    assert!(running.is_active());
    assert!(running.is_running());
    assert!(!running.is_paused());
    assert!(!running.is_stopped());

    assert!(paused.is_active());
    assert!(!paused.is_running());
    assert!(paused.is_paused());
    assert!(!paused.is_stopped());

    assert!(!stopped.is_active());
    assert!(!stopped.is_running());
    assert!(!stopped.is_paused());
    assert!(stopped.is_stopped());
}

#[test]
fn state_stopped_is_terminal_even_for_itself() {
    let stopped = PipelineState::Stopped;
    assert!(!stopped.can_transition_to(&PipelineState::Stopped));
    assert!(!stopped.can_transition_to(&PipelineState::Stopping));
    assert!(PipelineState::Stopping.can_transition_to(&PipelineState::Stopping));
}

#[test]
fn state_running_at_other_instants_is_another_state() {
    let a = PipelineState::Running { started_at: Instant::from_micros(1) };
    let b = PipelineState::Running { started_at: Instant::from_micros(2) };
    assert!(!a.can_transition_to(&b));
    assert!(a.can_transition_to(&a));
}

#[test]
fn state_descriptions_and_running_duration() {
    assert_eq!(PipelineState::Idle.description(), "Idle");
    assert_eq!(PipelineState::Initializing.description(), "Initializing");
    assert_eq!(PipelineState::Stopping.description(), "Stopping");
    assert_eq!(PipelineState::Stopped.description(), "Stopped");
    let running = PipelineState::Running { started_at: Instant::from_micros(100) };
    assert_eq!(running.description(), "Running");
    assert_eq!(
        running.running_duration_at(Instant::from_micros(350)),
        Some(Duration::from_micros(250))
    );
    let paused = PipelineState::Paused { paused_at: Instant::from_micros(100) };
    assert_eq!(paused.description(), "Paused");
    assert_eq!(paused.running_duration_at(Instant::from_micros(350)), None);
    assert!(PipelineState::Running { started_at: Instant::now() }.running_duration().is_some());
}
