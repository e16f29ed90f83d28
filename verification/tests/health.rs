use castify::pipeline::health::{HealthWatch, PipelineHealth};
use castify::pipeline::time::{Duration, Instant};

#[test]
fn test_health_metrics() {
    let mut health = PipelineHealth::new();

    // Record some frames
    health.record_frame(1000, false);
    health.record_frame(2000, true);
    health.record_frame(1500, false);

    assert_eq!(health.frames_processed(), 3);
    assert_eq!(health.bytes_processed(), 4500);
    assert_eq!(health.keyframes_processed(), 1);
    assert_eq!(health.frame_drops(), 0);

    // Record some drops
    health.record_frame_drop();
    health.record_frame_drop();

    assert_eq!(health.frame_drops(), 2);
    let frame_drop_rate =
        (health.frame_drops() as f64 / health.frames_processed() as f64) * 100.0;
    assert!(frame_drop_rate > 0.0);
}

#[test]
fn test_stall_detection() {
    let mut health = PipelineHealth::new();

    // Should not be stalled immediately
    assert!(!health.is_stalled(Duration::from_secs(1)));

    // Record a frame to update last_frame_time
    health.record_frame(1000, false);

    // Simulate stall by not recording frames
    let start = Instant::now();
    while Instant::now().micros < start.micros + 150_000 {}

    // Should be stalled after 150ms if threshold is 100ms
    assert!(health.is_stalled(Duration::from_millis(100)));
}

#[test]
fn health_stall_at_given_instants() {
    let mut health = PipelineHealth::new_at(Instant::from_micros(1_000));
    assert_eq!(health.last_frame_time(), 1_000);
    assert!(!health.is_stalled_at(Instant::from_micros(1_100), Duration::from_micros(100)));
    assert!(health.is_stalled_at(Instant::from_micros(1_101), Duration::from_micros(100)));
    // a clock that reads earlier than the last frame is not a stall
    assert!(!health.is_stalled_at(Instant::from_micros(10), Duration::from_micros(0)));
    health.record_frame_at(Instant::from_micros(5_000), 7, true);
    assert_eq!(health.last_frame_time(), 5_000);
    assert_eq!(health.bytes_processed(), 7);
    assert_eq!(health.keyframes_processed(), 1);
}

#[test]
fn health_counters_wrap_around() {
    let mut health = PipelineHealth::new_at(Instant::from_micros(0));
    health.frame_drops = u64::MAX;
    health.record_frame_drop();
    assert_eq!(health.frame_drops(), 0);
    health.record_decode_failure();
    health.record_network_error();
    health.record_network_error();
    assert_eq!(health.decode_failures(), 1);
    assert_eq!(health.network_errors(), 2);
}

#[test]
fn health_watch_reports_each_failure_once() {
    let mut health = PipelineHealth::new_at(Instant::from_micros(0));
    let mut watch = HealthWatch::new();
    health.record_decode_failure();
    health.record_decode_failure();
    health.record_network_error();
    let f = watch.check_at(&health, Instant::from_micros(10), Duration::from_micros(5));
    assert!(f.stalled);
    assert_eq!(f.new_decode_failures, 2);
    assert_eq!(f.new_network_errors, 1);
    let f = watch.check_at(&health, Instant::from_micros(10), Duration::from_micros(50));
    assert!(!f.stalled);
    assert_eq!(f.new_decode_failures, 0);
    assert_eq!(f.new_network_errors, 0);
    health.record_decode_failure();
    let f = watch.check_at(&health, Instant::from_micros(10), Duration::from_micros(50));
    assert_eq!(f.new_decode_failures, 1);
}
