use castify::pipeline::receiver::coordinator::ReceiverCoordinator;
use castify::pipeline::sender::coordinator::SenderCoordinator;
use castify::pipeline::stage::PipelineCoordinator;
use castify::pipeline::state::PipelineState;
use castify::pipeline::time::Instant;

#[test]
fn receiver_coordinator_lifecycle() {
    let mut rc = ReceiverCoordinator::new();
    assert_eq!(*rc.state(), PipelineState::Idle);
    rc.begin_launch();
    assert_eq!(*rc.state(), PipelineState::Initializing);
    rc.finish_launch(Instant::from_micros(9));
    assert_eq!(*rc.state(), PipelineState::Running { started_at: Instant::from_micros(9) });
    let cell = rc.audio_position_ref();
    cell.store(77, std::sync::atomic::Ordering::Relaxed);
    assert_eq!(rc.audio_position_ref().load(std::sync::atomic::Ordering::Relaxed), 77);
    rc.health_mut().record_frame_drop();
    assert_eq!(rc.health().frame_drops(), 1);
    assert_eq!(rc.clock_mut().next_correlation_id(), 0);
    assert_eq!(rc.clock_mut().next_correlation_id(), 1);
    rc.stop();
    assert_eq!(*rc.state(), PipelineState::Stopped);
}

#[test]
fn sender_coordinator_decisions() {
    let mut sc = SenderCoordinator::new();
    assert!(!sc.is_streaming());
    sc.start_at(Instant::from_micros(1));
    assert!(sc.is_streaming());
    sc.pause_at(Instant::from_micros(2));
    assert_eq!(*sc.state(), PipelineState::Paused { paused_at: Instant::from_micros(2) });
    sc.resume_at(Instant::from_micros(3));
    assert_eq!(*sc.state(), PipelineState::Running { started_at: Instant::from_micros(3) });
    assert!(sc.toggle_blank_screen());
    assert!(sc.is_blank_screen());
    assert!(sc.toggle_audio_mute());
    assert!(sc.is_audio_muted());
    assert!(!sc.toggle_audio_mute());
    sc.stop();
    assert_eq!(*sc.state(), PipelineState::Stopped);
    assert!(!sc.is_blank_screen());
    sc.start_at(Instant::from_micros(4));
    assert_eq!(*sc.state(), PipelineState::Stopped);
}

#[test]
fn sender_initializes_once() {
    let mut sc = SenderCoordinator::new();
    assert!(sc.initialize_at(Instant::from_micros(5)));
    assert_eq!(*sc.state(), PipelineState::Running { started_at: Instant::from_micros(5) });
    assert!(!sc.initialize_at(Instant::from_micros(6)));
    assert_eq!(*sc.state(), PipelineState::Running { started_at: Instant::from_micros(5) });
}

#[test]
fn pipeline_coordinator_lifecycle() {
    let mut pc = PipelineCoordinator::default();
    assert_eq!(pc.state(), PipelineState::Idle);
    assert_eq!(pc.health().frames_processed(), 0);
    pc.start_at(Instant::from_micros(5));
    assert_eq!(pc.state(), PipelineState::Running { started_at: Instant::from_micros(5) });
    pc.begin_stop();
    assert_eq!(pc.state(), PipelineState::Stopping);
    pc.finish_stop();
    assert!(pc.state().is_stopped());
    pc.start();
    assert!(pc.state().is_running());
}

#[test]
fn receiver_coordinator_stamps_through_shared_clock() {
    let mut rc = ReceiverCoordinator::new();
    {
        let (clock, health) = rc.clock_and_health_mut();
        assert_eq!(clock.next_correlation_id(), 0);
        health.record_decode_failure();
    }
    assert_eq!(rc.health().decode_failures(), 1);
    assert_eq!(rc.clock_mut().next_correlation_id(), 1);
}
