use castify::pipeline::clock::MediaClock;
use castify::pipeline::time::{Duration, Instant};

#[test]
fn test_clock_basic() {
    let clock = MediaClock::new();

    // Small delay to ensure some time has passed
    let start = castify::pipeline::time::Instant::now();
    while castify::pipeline::time::Instant::now().micros < start.micros + 10_000 {}

    let video_ts = clock.video_now().unwrap();
    let audio_ts = clock.audio_now().unwrap();

    // Both should be positive and relatively close
    assert!(video_ts.micros > 0);
    assert!(audio_ts.micros > 0);
    // No offsets initially, should be within 1ms of each other
    let diff = (video_ts.micros - audio_ts.micros).abs();
    assert!(diff < 1000, "Timestamps differ by {} microseconds", diff);
}

#[test]
fn test_clock_offsets() {
    let mut clock = MediaClock::new();

    // Set different offsets
    clock.set_video_offset(Duration::from_millis(100));
    clock.set_audio_offset(Duration::from_millis(50));

    let video_ts = clock.video_now().unwrap();
    let audio_ts = clock.audio_now().unwrap();

    // Video should be 50ms ahead of audio
    let diff = video_ts.micros - audio_ts.micros;
    assert!((diff - 50_000).abs() < 1000); // Within 1ms tolerance
}

#[test]
fn test_correlation_id() {
    let mut clock = MediaClock::new();

    let id1 = clock.next_correlation_id();
    let id2 = clock.next_correlation_id();
    let id3 = clock.next_correlation_id();

    // IDs should be sequential
    assert_eq!(id1 + 1, id2);
    assert_eq!(id2 + 1, id3);
}

#[test]
fn test_av_sync() {
    let mut clock = MediaClock::new();

    // Start in sync
    assert!(clock.is_synced(Duration::from_millis(1)));

    // Create offset
    clock.set_video_offset(Duration::from_millis(100));

    // Should not be synced
    assert!(!clock.is_synced(Duration::from_millis(10)));

    // Sync video to audio (both at 0)
    clock.sync_video_to_audio();

    // Should be in sync again
    assert!(clock.is_synced(Duration::from_millis(1)));
}

#[test]
fn test_adjust_offset() {
    let mut clock = MediaClock::new();

    clock.set_video_offset(Duration::from_millis(100));
    assert_eq!(clock.video_offset(), Duration::from_millis(100));

    // Add 50ms
    clock.adjust_video_offset(Duration::from_millis(50), false);
    assert_eq!(clock.video_offset(), Duration::from_millis(150));

    // Subtract 30ms
    clock.adjust_video_offset(Duration::from_millis(30), true);
    assert_eq!(clock.video_offset(), Duration::from_millis(120));
}

#[test]
fn clock_offsets_read_back_and_negative_offset_reads_zero() {
    let mut clock = MediaClock::new();
    clock.set_audio_offset(Duration::from_micros(1234));
    assert_eq!(clock.audio_offset(), Duration::from_micros(1234));
    clock.adjust_audio_offset(Duration::from_micros(2000), true);
    assert_eq!(clock.audio_offset(), Duration::from_micros(0));
    clock.adjust_audio_offset(Duration::from_micros(2000), false);
    assert_eq!(clock.audio_offset(), Duration::from_micros(1234));
}

#[test]
fn clock_av_sync_offset_is_signed() {
    let mut clock = MediaClock::new();
    clock.set_video_offset(Duration::from_millis(30));
    clock.set_audio_offset(Duration::from_millis(100));
    assert_eq!(clock.av_sync_offset(), -70_000);
    assert!(!clock.is_synced(Duration::from_millis(69)));
    assert!(clock.is_synced(Duration::from_millis(70)));
    clock.set_video_offset(Duration::from_millis(100));
    clock.set_audio_offset(Duration::from_millis(30));
    assert_eq!(clock.av_sync_offset(), 70_000);
    assert!(clock.is_synced(Duration::from_millis(70)));
    clock.set_video_offset(Duration::from_micros(300));
    clock.set_audio_offset(Duration::from_micros(1000));
    clock.sync_audio_to_video();
    assert_eq!(clock.av_sync_offset(), 0);
    assert_eq!(clock.audio_offset(), Duration::from_micros(300));
    clock.reset_offsets();
    assert_eq!(clock.video_offset(), Duration::from_micros(0));
    assert_eq!(clock.audio_offset(), Duration::from_micros(0));
}

#[test]
fn clock_timestamps_at_given_instants() {
    let mut clock = MediaClock::with_base(Instant::from_micros(1_000_000));
    assert_eq!(clock.base(), Instant::from_micros(1_000_000));
    clock.set_video_offset(Duration::from_micros(250));
    let t = clock.video_now_at(Instant::from_micros(1_500_000)).unwrap();
    assert_eq!(t.micros, 500_250);
    let a = clock.audio_now_at(Instant::from_micros(1_500_000)).unwrap();
    assert_eq!(a.micros, 500_000);
    // an instant before the base maps to zero
    assert_eq!(clock.timestamp_from_instant(Instant::from_micros(10)).micros, 0);
    assert_eq!(clock.timestamp_from_instant(Instant::from_micros(1_000_042)).micros, 42);
    assert_eq!(clock.timestamp_from_duration(Duration::from_micros(77)).micros, 77);
}

#[test]
fn clock_video_time_overflow_is_reported() {
    let mut clock = MediaClock::with_base(Instant::from_micros(0));
    clock.set_video_offset(Duration::from_micros(i64::MAX as u64));
    assert!(clock.video_now_at(Instant::from_micros(10)).is_none());
    assert!(clock.video_now_at(Instant::from_micros(0)).is_some());
}
