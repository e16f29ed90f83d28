use bytes::Bytes;
use castify::pipeline::clock::MediaClock;
use castify::pipeline::health::PipelineHealth;
use castify::pipeline::receiver::decode_stage::{
    au_contains_idr_or_sps, stamp_decoded_frame, stamp_decoded_frame_at, KeyframeGate,
};
use castify::pipeline::sender::encode_stage::{contains_idr, wrap_frame, wrap_frame_at};
use castify::pipeline::time::{Duration, Instant};
use castify::pipeline::types::{MediaFrame, MediaKind, Timestamp};

#[test]
fn timestamp_arithmetic() {
    let t = Timestamp::from_micros(1_000);
    assert_eq!(t.add(Duration::from_micros(500)).micros, 1_500);
    assert_eq!(t.sub(Duration::from_micros(1_500)).micros, -500);
    assert_eq!(t.diff(Timestamp::from_micros(1_600)), Duration::from_micros(600));
    assert_eq!(Timestamp::from_micros(1_600).diff(t), Duration::from_micros(600));
    assert_eq!(t.as_duration(), Duration::from_micros(1_000));
    assert_eq!(Timestamp::from_duration(Duration::from_millis(2)).micros, 2_000);
    assert_eq!(
        Timestamp::from_instant(Instant::from_micros(50), Instant::from_micros(20)).micros,
        30
    );
    assert_eq!(
        Timestamp::from_instant(Instant::from_micros(20), Instant::from_micros(50)).micros,
        0
    );
    // the casts keep the bits, as `as` does
    assert_eq!(Timestamp::from_micros(-1).as_duration().micros, u64::MAX);
    assert_eq!(Timestamp::from_duration(Duration::from_micros(u64::MAX)).micros, -1);
    assert!(Timestamp::from_micros(1) < Timestamp::from_micros(2));
}

#[test]
fn keyframe_detection() {
    assert!(contains_idr(&[0, 0, 0, 1, 0x65, 0x88]));
    assert!(!contains_idr(&[0, 0, 0, 1, 0x41, 0x9a]));
    // the NAL header must follow the start code
    assert!(!contains_idr(&[0, 0, 0, 1]));
    assert!(contains_idr(&[7, 0, 0, 0, 1, 0x41, 0, 0, 0, 1, 0x25, 1]));
    assert!(au_contains_idr_or_sps(&[0, 0, 0, 1, 0x67, 0x42]));
    assert!(au_contains_idr_or_sps(&[0, 0, 0, 1, 0x68]));
    assert!(au_contains_idr_or_sps(&[0, 0, 0, 1, 0x65]));
    assert!(!au_contains_idr_or_sps(&[0, 0, 0, 1, 0x41]));
    assert!(au_contains_idr_or_sps(&[0, 0, 1, 0x65]));
    assert!(!au_contains_idr_or_sps(&[0, 0, 2, 0x65]));
    assert!(contains_idr(&[0, 0, 1, 0x65, 0x88]));
    assert!(!contains_idr(&[0, 0, 1, 0x41, 0x88]));
    assert!(!au_contains_idr_or_sps(&[]));
    // contains_idr looks for IDR slices only
    assert!(!contains_idr(&[0, 0, 0, 1, 0x67, 0x42]));
}

#[test]
fn keyframe_gate_waits_and_resets() {
    let mut gate = KeyframeGate::new();
    assert!(!gate.should_decode(&[0, 0, 0, 1, 0x41]));
    assert!(gate.should_decode(&[0, 0, 0, 1, 0x67]));
    assert!(gate.should_decode(&[0, 0, 0, 1, 0x41]));
    for _ in 0..9 {
        assert!(!gate.record_failure());
    }
    gate.record_success();
    for _ in 0..9 {
        assert!(!gate.record_failure());
    }
    assert!(gate.record_failure());
    assert!(!gate.should_decode(&[0, 0, 0, 1, 0x41]));
}

#[test]
fn media_frames() {
    let data = Bytes::from(vec![1u8, 2, 3]);
    let v = MediaFrame::video(
        data.clone(),
        Timestamp::from_micros(5),
        Timestamp::from_micros(4),
        9,
        true,
        640,
        480,
    );
    assert_eq!(v.size(), 3);
    assert_eq!(v.kind, MediaKind::Video);
    assert_eq!(v.width, Some(640));
    assert_eq!(v.sample_rate, None);
    let a = MediaFrame::audio(Bytes::from(vec![0u8; 10]), Timestamp::from_micros(7), 1, 48_000, 2);
    assert_eq!(a.size(), 10);
    assert_eq!(a.dts, a.pts);
    assert_eq!(a.channels, Some(2));
    assert!(!a.is_keyframe);
}

#[test]
fn wrapping_an_encoded_frame() {
    let mut clock = MediaClock::with_base(Instant::from_micros(1_000));
    clock.set_video_offset(Duration::from_micros(5));
    let mut health = PipelineHealth::new_at(Instant::from_micros(0));
    let idr = Bytes::from(vec![0u8, 0, 0, 1, 0x65, 1, 2]);
    let f = wrap_frame_at(&mut clock, &mut health, idr, Instant::from_micros(3_000)).unwrap();
    assert_eq!(f.pts.micros, 2_005);
    assert_eq!(f.dts, f.pts);
    assert_eq!(f.correlation_id, 0);
    assert!(f.is_keyframe);
    assert_eq!(f.size(), 7);
    assert_eq!(health.bytes_processed(), 7);
    assert_eq!(health.keyframes_processed(), 1);
    assert_eq!(health.last_frame_time(), 3_000);
    let g = wrap_frame(&mut clock, &mut health, Bytes::from(vec![0u8, 0, 0, 1, 0x41])).unwrap();
    assert_eq!(g.correlation_id, 1);
    assert!(!g.is_keyframe);
    assert_eq!(health.frames_processed(), 2);
    assert_eq!(health.keyframes_processed(), 1);
}

#[test]
fn decoded_frames_are_stamped() {
    let mut clock = MediaClock::with_base(Instant::from_micros(1_000));
    let mut health = PipelineHealth::new_at(Instant::from_micros(0));
    let idr_au = [0u8, 0, 0, 1, 0x65, 0xaa];
    let f = stamp_decoded_frame_at(
        &mut clock,
        &mut health,
        &idr_au,
        vec![1, 2, 3, 4, 5, 6],
        2,
        2,
        Instant::from_micros(4_000),
        Instant::from_micros(4_500),
    );
    assert_eq!(f.pts.micros, 3_000);
    assert_eq!(f.correlation_id, 0);
    assert!(f.is_keyframe);
    assert_eq!((f.frame.width, f.frame.height), (2, 2));
    assert_eq!(f.frame.data, vec![1, 2, 3, 4, 5, 6]);
    assert_eq!(health.frames_processed(), 1);
    assert_eq!(health.bytes_processed(), 6);
    assert_eq!(health.keyframes_processed(), 1);
    assert_eq!(health.last_frame_time(), 4_500);
    let p_au = [0u8, 0, 0, 1, 0x41, 0xbb];
    let g = stamp_decoded_frame(&mut clock, &mut health, &p_au, vec![9; 3], 1, 3, Instant::from_micros(1_500));
    assert_eq!(g.pts.micros, 500);
    assert_eq!(g.correlation_id, 1);
    assert!(!g.is_keyframe);
    assert_eq!(health.frames_processed(), 2);
    assert_eq!(health.keyframes_processed(), 1);
}
