use castify::pipeline::health::PipelineHealth;
use castify::pipeline::receiver::decode_stage::{TimedVideoFrame, VideoFrame};
use castify::pipeline::receiver::sync_stage::{AudioPlaybackTracker, SyncConfig, SyncStage};
use castify::pipeline::time::{Duration, Instant};
use castify::pipeline::types::Timestamp;

fn make_timed_frame(pts_us: i64, w: u32, h: u32) -> TimedVideoFrame {
    TimedVideoFrame {
        frame: VideoFrame {
            data: vec![0u8; (w * h * 3 / 2) as usize],
            width: w,
            height: h,
        },
        pts: Timestamp::from_micros(pts_us),
        correlation_id: 0,
        is_keyframe: false,
    }
}

#[test]
fn test_sync_passthrough_no_audio() {
    let config = SyncConfig {
        playout_delay: Duration::from_millis(0),
        ..Default::default()
    };
    let mut health = PipelineHealth::new();
    let mut stage = SyncStage::new(config);
    stage.start_playout(Instant::now());

    stage.push_video_frame(make_timed_frame(0, 320, 240));
    stage.push_video_frame(make_timed_frame(33000, 320, 240));

    // Without audio, frames should be released immediately
    let output = stage.process_video_queue(&mut health).unwrap();
    assert_eq!(output.len(), 1);
}

#[test]
fn test_sync_with_audio_reference() {
    let config = SyncConfig {
        playout_delay: Duration::from_millis(0),
        frame_tolerance: Duration::from_millis(33),
        max_drift: Duration::from_millis(50),
        ..Default::default()
    };
    let mut health = PipelineHealth::new();
    let mut stage = SyncStage::new(config);
    stage.start_playout(Instant::now());
    stage.mark_audio_started();

    // Audio at 100ms
    stage.audio_tracker().update_position(100_000);

    // Video at 50ms - should be released (behind audio, within tolerance)
    stage.push_video_frame(make_timed_frame(50_000, 320, 240));

    // Video at 200ms - should NOT be released (ahead of audio)
    stage.push_video_frame(make_timed_frame(200_000, 320, 240));

    let output = stage.process_video_queue(&mut health).unwrap();
    assert_eq!(output.len(), 1);

    // Queue should still have the 200ms frame
    assert_eq!(stage.queue_len(), 1);
}

#[test]
fn test_sync_drops_late_frames() {
    let config = SyncConfig {
        playout_delay: Duration::from_millis(0),
        frame_tolerance: Duration::from_millis(33),
        max_drift: Duration::from_millis(50),
        ..Default::default()
    };
    let mut health = PipelineHealth::new();
    let mut stage = SyncStage::new(config);
    stage.start_playout(Instant::now());
    stage.mark_audio_started();

    // Audio at 500ms
    stage.audio_tracker().update_position(500_000);

    // Video at 100ms - should be dropped (too far behind audio, > 50ms drift)
    stage.push_video_frame(make_timed_frame(100_000, 320, 240));
    // Video at 480ms - should be released (within tolerance)
    stage.push_video_frame(make_timed_frame(480_000, 320, 240));

    let output = stage.process_video_queue(&mut health).unwrap();
    assert_eq!(output.len(), 1);
    assert_eq!(stage.frames_dropped(), 1);
}

#[test]
fn sync_playout_delay_holds_frames_back() {
    let config = SyncConfig {
        playout_delay: Duration::from_micros(1_000),
        ..Default::default()
    };
    let mut health = PipelineHealth::new_at(Instant::from_micros(0));
    let mut stage = SyncStage::new(config);
    stage.start_playout(Instant::from_micros(5_000));
    stage.push_video_frame(make_timed_frame(0, 2, 2));
    assert_eq!(stage.process_video_queue_at(0, Instant::from_micros(5_999), &mut health).len(), 0);
    assert_eq!(stage.queue_len(), 1);
    assert_eq!(stage.process_video_queue_at(0, Instant::from_micros(6_000), &mut health).len(), 1);
    assert_eq!(stage.frames_released(), 1);
}

#[test]
fn sync_queue_is_trimmed_to_capacity() {
    let config = SyncConfig {
        playout_delay: Duration::from_micros(0),
        frame_tolerance: Duration::from_micros(0),
        max_drift: Duration::from_micros(0),
        max_video_queue: 2,
        ..Default::default()
    };
    let mut health = PipelineHealth::new_at(Instant::from_micros(0));
    let mut stage = SyncStage::new(config);
    stage.mark_audio_started();
    for pts in [10, 20, 30, 40, 50] {
        stage.push_video_frame(make_timed_frame(pts, 2, 2));
    }
    // audio at 0: nothing is due; the queue keeps its 2 newest frames
    let out = stage.process_video_queue_at(0, Instant::from_micros(0), &mut health);
    assert_eq!(out.len(), 0);
    assert_eq!(stage.queue_len(), 2);
    assert_eq!(stage.frames_dropped(), 3);
    assert_eq!(health.frame_drops(), 3);
    assert_eq!(stage.pop_video_frame().unwrap().pts.micros, 40);
}

#[test]
fn sync_audio_tracker_shares_its_position() {
    let mut tracker = AudioPlaybackTracker::new();
    assert!(!tracker.is_started());
    let cell = tracker.position_ref();
    cell.store(4242, std::sync::atomic::Ordering::Relaxed);
    assert_eq!(tracker.position(), 4242);
    tracker.update_position(7);
    assert_eq!(tracker.position(), 7);
    tracker.mark_started();
    assert!(tracker.is_started());
    let default_config = SyncConfig::default();
    assert_eq!(default_config.playout_delay, Duration::from_millis(200));
    assert_eq!(default_config.max_drift, Duration::from_millis(100));
    assert_eq!(default_config.frame_tolerance, Duration::from_millis(66));
    assert_eq!(default_config.max_video_queue, 120);
    assert_eq!(default_config.max_audio_queue, 240);
}

#[test]
fn sync_queue_stays_in_pts_order() {
    let config = SyncConfig {
        playout_delay: Duration::from_millis(0),
        max_video_queue: 3,
        ..Default::default()
    };
    let mut health = PipelineHealth::new_at(Instant::from_micros(0));
    let mut stage = SyncStage::new(config);
    stage.start_playout(Instant::from_micros(0));
    for pts in [10_000i64, 20_000, 30_000, 40_000, 50_000] {
        stage.push_video_frame(make_timed_frame(pts, 2, 2));
    }
    let out = stage.process_video_queue_at(0, Instant::from_micros(1), &mut health);
    assert_eq!(out.len(), 1);
    let mut rest = Vec::new();
    while let Some(f) = stage.pop_video_frame() {
        rest.push(f.pts.micros);
    }
    assert_eq!(rest, vec![30_000, 40_000, 50_000]);
    assert_eq!(stage.frames_dropped(), 1);
}
