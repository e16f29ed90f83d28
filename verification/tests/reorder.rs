use castify::pipeline::receiver::reorder_stage::{JitterBuffer, ReorderConfig, RtpPacket};
use castify::pipeline::time::{Duration, Instant};

fn make_packet(seq: u16) -> RtpPacket {
    RtpPacket {
        payload: vec![seq as u8],
        marker: true,
        sequence_number: seq,
        timestamp: seq as u32 * 3000,
        received_at: Instant::now(),
    }
}

fn packet_at(seq: u16, micros: u64) -> RtpPacket {
    RtpPacket {
        payload: vec![seq as u8],
        marker: false,
        sequence_number: seq,
        timestamp: 0,
        received_at: Instant::from_micros(micros),
    }
}

fn wait_millis(ms: u64) {
    let start = Instant::now();
    while Instant::now().micros < start.micros + ms * 1000 {}
}

#[test]
fn test_in_order_packets() {
    let config = ReorderConfig {
        jitter_delay: Duration::from_millis(0), // No delay for testing
        ..Default::default()
    };
    let mut jb = JitterBuffer::new(config);

    jb.insert(make_packet(1));
    jb.insert(make_packet(2));
    jb.insert(make_packet(3));

    let ready = jb.drain_ready();
    assert_eq!(ready.len(), 3);
    assert_eq!(ready[0].sequence_number, 1);
    assert_eq!(ready[1].sequence_number, 2);
    assert_eq!(ready[2].sequence_number, 3);
}

#[test]
fn test_out_of_order_packets() {
    let config = ReorderConfig {
        jitter_delay: Duration::from_millis(0),
        ..Default::default()
    };
    let mut jb = JitterBuffer::new(config);

    jb.insert(make_packet(3));
    jb.insert(make_packet(1));
    jb.insert(make_packet(2));

    let ready = jb.drain_ready();
    assert_eq!(ready.len(), 3);
    assert_eq!(ready[0].sequence_number, 1);
    assert_eq!(ready[1].sequence_number, 2);
    assert_eq!(ready[2].sequence_number, 3);
}

#[test]
fn test_duplicate_packets() {
    let config = ReorderConfig {
        jitter_delay: Duration::from_millis(0),
        ..Default::default()
    };
    let mut jb = JitterBuffer::new(config);

    jb.insert(make_packet(1));
    jb.insert(make_packet(1)); // duplicate
    jb.insert(make_packet(2));

    let ready = jb.drain_ready();
    assert_eq!(ready.len(), 2);
}

#[test]
fn test_jitter_delay() {
    let config = ReorderConfig {
        jitter_delay: Duration::from_millis(100),
        ..Default::default()
    };
    let mut jb = JitterBuffer::new(config);

    jb.insert(make_packet(1));

    // Should not be ready yet (hasn't waited long enough)
    let ready = jb.drain_ready();
    assert_eq!(ready.len(), 0);

    // Wait for jitter delay
    wait_millis(110);

    let ready = jb.drain_ready();
    assert_eq!(ready.len(), 1);
    assert_eq!(ready[0].sequence_number, 1);
}

#[test]
fn test_packet_loss_skip() {
    let config = ReorderConfig {
        jitter_delay: Duration::from_millis(0),
        ..Default::default()
    };
    let mut jb = JitterBuffer::new(config);

    jb.insert(make_packet(1));

    // Drain seq 1
    let ready = jb.drain_ready();
    assert_eq!(ready.len(), 1);

    // Skip seq 2, insert seq 3
    jb.insert(make_packet(3));

    // Wait for timeout to trigger loss detection
    wait_millis(5);

    // Seq 2 lost, seq 3 should be output
    let ready = jb.drain_ready();
    assert!(ready.len() <= 1);
}

#[test]
fn test_stats() {
    let config = ReorderConfig {
        jitter_delay: Duration::from_millis(0),
        ..Default::default()
    };
    let mut jb = JitterBuffer::new(config);

    jb.insert(make_packet(1));
    jb.insert(make_packet(3));
    jb.insert(make_packet(2));

    let (received, reordered, _, buffered) = jb.stats();
    assert_eq!(received, 3);
    assert!(reordered > 0);
    assert_eq!(buffered, 3);
}

#[test]
fn reorder_default_config() {
    let c = ReorderConfig::default();
    assert_eq!(c.jitter_delay, Duration::from_millis(150));
    assert_eq!(c.max_buffer_size, 400);
    assert_eq!(c.max_reorder_distance, 60);
}

#[test]
fn reorder_missing_packet_is_declared_lost_after_twice_the_delay() {
    let config = ReorderConfig {
        jitter_delay: Duration::from_micros(100),
        ..Default::default()
    };
    let mut jb = JitterBuffer::new(config);
    jb.insert(packet_at(10, 1_000));
    let ready = jb.drain_ready_at(Instant::from_micros(1_100));
    assert_eq!(ready.len(), 1);
    // 11 and 12 are missing, 13 arrives
    jb.insert(packet_at(13, 2_000));
    // waited 150us: more than the delay, not more than twice the delay
    assert_eq!(jb.drain_ready_at(Instant::from_micros(2_150)).len(), 0);
    assert_eq!(jb.stats().2, 0);
    // waited 201us: 11 and 12 are lost, 13 is released
    let ready = jb.drain_ready_at(Instant::from_micros(2_201));
    assert_eq!(ready.len(), 1);
    assert_eq!(ready[0].sequence_number, 13);
    assert_eq!(jb.stats(), (2, 0, 2, 0));
}

#[test]
fn reorder_sequence_numbers_wrap_around() {
    let config = ReorderConfig {
        jitter_delay: Duration::from_micros(0),
        ..Default::default()
    };
    let mut jb = JitterBuffer::new(config);
    jb.insert(packet_at(1, 0));
    jb.insert(packet_at(65535, 0));
    jb.insert(packet_at(0, 0));
    let ready = jb.drain_ready_at(Instant::from_micros(0));
    let seqs: Vec<u16> = ready.iter().map(|p| p.sequence_number).collect();
    assert_eq!(seqs, vec![65535, 0, 1]);
}

#[test]
fn reorder_drain_all_follows_sequence_order_across_wrap() {
    let config = ReorderConfig {
        jitter_delay: Duration::from_secs(10),
        ..Default::default()
    };
    let mut jb = JitterBuffer::new(config);
    jb.insert(packet_at(65535, 0));
    jb.insert(packet_at(5, 0));
    jb.insert(packet_at(2, 0));
    jb.insert(packet_at(2, 0));
    let all = jb.drain_all();
    let seqs: Vec<u16> = all.iter().map(|p| p.sequence_number).collect();
    assert_eq!(seqs, vec![65535, 2, 5]);
    assert_eq!(jb.stats().3, 0);
    assert_eq!(jb.stats().0, 4);
    assert!(jb.drain_all().is_empty());
}

#[test]
fn reorder_drain_all_after_wrap_keeps_zero_after_65535() {
    let mut jb = JitterBuffer::new(ReorderConfig::default());
    jb.insert(make_packet(65535));
    jb.insert(make_packet(0));
    let seqs: Vec<u16> = jb.drain_all().iter().map(|p| p.sequence_number).collect();
    assert_eq!(seqs, vec![65535, 0]);
    assert_eq!(jb.stats().3, 0);
}

#[test]
fn reorder_late_packet_goes_to_its_place_in_rtp_order() {
    let config = ReorderConfig {
        jitter_delay: Duration::from_secs(10),
        ..Default::default()
    };
    let mut jb = JitterBuffer::new(config);
    jb.insert(packet_at(65534, 0));
    jb.insert(packet_at(1, 0));
    jb.insert(packet_at(65535, 0));
    jb.insert(packet_at(0, 0));
    // reordered: 65535 and 0 went before 1
    assert_eq!(jb.stats().1, 2);
    let seqs: Vec<u16> = jb.drain_all().iter().map(|p| p.sequence_number).collect();
    assert_eq!(seqs, vec![65534, 65535, 0, 1]);
}

#[test]
fn reorder_overflow_evicts_packets_outside_the_window() {
    let config = ReorderConfig {
        jitter_delay: Duration::from_secs(10),
        max_buffer_size: 2,
        max_reorder_distance: 3,
    };
    let mut jb = JitterBuffer::new(config);
    jb.insert(packet_at(100, 0));
    jb.insert(packet_at(101, 0));
    // third packet overflows the capacity; 200 is outside the window around 100
    jb.insert(packet_at(200, 0));
    let all = jb.drain_all();
    let seqs: Vec<u16> = all.iter().map(|p| p.sequence_number).collect();
    assert_eq!(seqs, vec![100, 101]);
}

#[test]
fn reorder_overflow_within_window_keeps_packets() {
    let config = ReorderConfig {
        jitter_delay: Duration::from_micros(0),
        max_buffer_size: 1,
        max_reorder_distance: 10,
    };
    let mut jb = JitterBuffer::new(config);
    jb.insert(packet_at(5, 0));
    jb.insert(packet_at(7, 0));
    // both stay in the window; the buffer is still over capacity, so the
    // awaited number jumps to the front packet (5) and both drain in order
    let ready = jb.drain_ready_at(Instant::from_micros(0));
    let seqs: Vec<u16> = ready.iter().map(|p| p.sequence_number).collect();
    assert_eq!(seqs, vec![5]);
}
