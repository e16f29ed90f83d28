//! Jitter buffer for the receiver pipeline.
//!
//! Packets are held in a sliding window ordered by RTP sequence number for a
//! configurable delay, then released in sequence order; a missing packet is
//! declared lost once the oldest buffered packet has waited twice the delay.

use std::collections::VecDeque;
use vstd::prelude::*;

use crate::pipeline::time::{span_between, Duration, Instant};

verus! {

/// An RTP packet with the metadata needed for reordering.
#[derive(Clone, Debug)]
pub struct RtpPacket {
    pub payload: Vec<u8>,
    pub marker: bool,
    pub sequence_number: u16,
    pub timestamp: u32,
    pub received_at: Instant,
}

/// Jitter buffer configuration.
#[derive(Clone, Copy, Debug, PartialEq, Eq, Structural)]
pub struct ReorderConfig {
    /// How long a packet is held before it may be released.
    pub jitter_delay: Duration,
    /// The number of packets above which stale packets are evicted.
    pub max_buffer_size: usize,
    /// How far (in sequence numbers) a packet may sit from the expected one
    /// and survive an eviction.
    pub max_reorder_distance: u16,
}

impl Default for ReorderConfig {
    fn default() -> (c: Self)
        ensures
            c.jitter_delay.micros == 150_000,
            c.max_buffer_size == 400,
            c.max_reorder_distance == 60,
    {
        ReorderConfig {
            jitter_delay: Duration::from_millis(150),
            max_buffer_size: 400,
            max_reorder_distance: 60,
        }
    }
}

/// How many steps forward `a` lies from `b` on the 16-bit sequence circle.
pub open spec fn seq_distance(a: u16, b: u16) -> int {
    if a >= b {
        a - b
    } else {
        a - b + 0x10000
    }
}

/// `a` comes after `b` in RTP order: less than half the circle ahead of it.
pub open spec fn seq_after(a: u16, b: u16) -> bool {
    0 < seq_distance(a, b) < 0x8000
}

/// The sequence number that follows `s`, wrapping at 65535.
pub open spec fn next_seq(s: u16) -> u16 {
    if s == 0xffff {
        0
    } else {
        (s + 1) as u16
    }
}

/// A packet numbered `seq` survives an eviction around `expected`.
pub open spec fn within_reorder_window(seq: u16, expected: u16, distance: u16) -> bool {
    seq_distance(seq, expected) <= distance || seq_distance(seq, expected) >= 0xffff - distance
}

/// Some buffered packet carries sequence number `seq`.
pub open spec fn holds_seq(packets: Seq<RtpPacket>, seq: u16) -> bool {
    exists|j: int| 0 <= j < packets.len() && packets[j].sequence_number == seq
}

/// No two buffered packets carry the same sequence number.
pub open spec fn distinct_seqs(packets: Seq<RtpPacket>) -> bool {
    forall|i: int, j: int|
        0 <= i < j < packets.len() ==> packets[i].sequence_number != packets[j].sequence_number
}

/// Where a packet numbered `seq` is inserted: before the first buffered
/// packet that comes after it, or at the end.
pub open spec fn insert_position(packets: Seq<RtpPacket>, seq: u16) -> nat
    decreases packets.len(),
{
    if packets.len() == 0 {
        0
    } else if seq_after(packets[0].sequence_number, seq) {
        0
    } else {
        1 + insert_position(packets.drop_first(), seq)
    }
}

/// The packets that survive an eviction around `expected`, in order.
pub open spec fn retained(packets: Seq<RtpPacket>, expected: u16, distance: u16) -> Seq<RtpPacket> {
    packets.filter(|p: RtpPacket| within_reorder_window(p.sequence_number, expected, distance))
}

/// What a drain does to a buffer whose front is `packets` while `expected`
/// is the sequence number awaited: how many packets it releases, how many
/// sequence numbers it declares lost, and the sequence number awaited after.
///
/// The front packet is released when it is the awaited one and has been held
/// for `delay`; when the awaited packet is missing and the front packet has
/// waited more than twice `delay`, every sequence number up to the front one
/// is declared lost and the front packet is released.
pub open spec fn drain_plan(packets: Seq<RtpPacket>, expected: u16, now: Instant, delay: u64) -> (
    nat,
    nat,
    u16,
)
    decreases packets.len(),
{
    if packets.len() == 0 {
        (0, 0, expected)
    } else {
        let front = packets[0];
        let age = span_between(now, front.received_at);
        if front.sequence_number == expected {
            if age >= delay {
                let rest = drain_plan(packets.drop_first(), next_seq(expected), now, delay);
                (rest.0 + 1, rest.1, rest.2)
            } else {
                (0, 0, expected)
            }
        } else if age > 2 * delay {
            let rest = drain_plan(
                packets.drop_first(),
                next_seq(front.sequence_number),
                now,
                delay,
            );
            (rest.0 + 1, rest.1 + seq_distance(front.sequence_number, expected) as nat, rest.2)
        } else {
            (0, 0, expected)
        }
    }
}

/// In sequence order around the 16-bit circle, starting at `base`: each
/// packet lies further on from `base` than the one before it.
pub open spec fn rtp_sorted_from(packets: Seq<RtpPacket>, base: u16) -> bool {
    forall|i: int, j: int|
        0 <= i < j < packets.len() ==> seq_distance(packets[i].sequence_number, base)
            < seq_distance(packets[j].sequence_number, base)
}

/// How many steps `s` lies on from `base` around the sequence circle.
fn circle_offset(s: u16, base: u16) -> (k: u16)
    ensures
        k == seq_distance(s, base),
{
    if s >= base {
        s - base
    } else {
        (s as u32 + 0x10000 - base as u32) as u16
    }
}

proof fn lemma_distance_step(f: u16, e: u16)
    requires
        f != e,
    ensures
        seq_distance(f, e) == seq_distance(f, next_seq(e)) + 1,
        1 <= seq_distance(f, e) <= 0xffff,
{
}

proof fn lemma_insert_position(packets: Seq<RtpPacket>, seq: u16, i: int)
    requires
        0 <= i <= packets.len(),
        forall|j: int| 0 <= j < i ==> !seq_after(#[trigger] packets[j].sequence_number, seq),
        i == packets.len() || seq_after(packets[i].sequence_number, seq),
    ensures
        insert_position(packets, seq) == i,
    decreases i,
{
    if i > 0 {
        let rest = packets.drop_first();
        assert forall|j: int| 0 <= j < i - 1 implies !seq_after(
            #[trigger] rest[j].sequence_number,
            seq,
        ) by {
            assert(rest[j] == packets[j + 1]);
        }
        if i - 1 < rest.len() {
            assert(rest[i - 1] == packets[i]);
        }
        lemma_insert_position(rest, seq, i - 1);
        assert(!seq_after(packets[0].sequence_number, seq));
    }
}

proof fn lemma_drain_plan_bounds(packets: Seq<RtpPacket>, expected: u16, now: Instant, delay: u64)
    ensures
        drain_plan(packets, expected, now, delay).0 <= packets.len(),
        drain_plan(packets, expected, now, delay).1 <= 0xffff * drain_plan(
            packets,
            expected,
            now,
            delay,
        ).0,
        forall|i: int|
            0 <= i < drain_plan(packets, expected, now, delay).0 ==> span_between(
                now,
                #[trigger] packets[i].received_at,
            ) >= delay,
    decreases packets.len(),
{
    if packets.len() > 0 {
        let front = packets[0];
        let rest = packets.drop_first();
        if front.sequence_number == expected {
            lemma_drain_plan_bounds(rest, next_seq(expected), now, delay);
        } else {
            lemma_drain_plan_bounds(rest, next_seq(front.sequence_number), now, delay);
            lemma_distance_step(front.sequence_number, expected);
        }
        let plan = drain_plan(packets, expected, now, delay);
        assert forall|i: int| 0 <= i < plan.0 implies span_between(
            now,
            #[trigger] packets[i].received_at,
        ) >= delay by {
            if i > 0 {
                assert(packets[i] == rest[i - 1]);
            }
        }
    }
}

/// A drain declares at most 65535 sequence numbers lost for each packet it
/// releases, so at most 65535 per buffered packet.
pub proof fn law_drain_loss_bound(packets: Seq<RtpPacket>, expected: u16, now: Instant, delay: u64)
    ensures
        drain_plan(packets, expected, now, delay).1 <= 0xffff * packets.len(),
{
    lemma_drain_plan_bounds(packets, expected, now, delay);
    assert(0xffff * drain_plan(packets, expected, now, delay).0 <= 0xffff * packets.len())
        by (nonlinear_arith)
        requires
            drain_plan(packets, expected, now, delay).0 <= packets.len(),
    ;
}

/// RTP order is antisymmetric: of two sequence numbers at most one comes
/// after the other, and none comes after itself.
pub proof fn law_seq_order_antisymmetric(a: u16, b: u16)
    ensures
        !(seq_after(a, b) && seq_after(b, a)),
        !seq_after(a, a),
{
}

/// A drain loses no packet: what it releases followed by what it keeps is
/// what the buffer held.
pub proof fn law_drain_conserves_packets(packets: Seq<RtpPacket>, released: int)
    requires
        0 <= released <= packets.len(),
    ensures
        packets.take(released) + packets.skip(released) == packets,
{
    assert(packets.take(released) + packets.skip(released) =~= packets);
}

/// The sequence number `k` steps after `s`.
pub open spec fn seq_plus(s: u16, k: nat) -> u16
    decreases k,
{
    if k == 0 {
        s
    } else {
        next_seq(seq_plus(s, (k - 1) as nat))
    }
}

/// Packets that arrived in order, starting at the awaited one, and that
/// have all been held for the jitter delay are all released, none is
/// declared lost, and the packet after the last is awaited next.
pub proof fn law_in_order_packets_all_released(
    packets: Seq<RtpPacket>,
    expected: u16,
    now: Instant,
    delay: u64,
)
    requires
        forall|i: int|
            0 <= i < packets.len() ==> #[trigger] packets[i].sequence_number == seq_plus(
                expected,
                i as nat,
            ),
        forall|i: int|
            0 <= i < packets.len() ==> span_between(now, #[trigger] packets[i].received_at)
                >= delay,
    ensures
        drain_plan(packets, expected, now, delay) == (
            packets.len(),
            0nat,
            seq_plus(expected, packets.len()),
        ),
    decreases packets.len(),
{
    if packets.len() > 0 {
        let rest = packets.drop_first();
        assert(packets[0].sequence_number == seq_plus(expected, 0));
        assert(span_between(now, packets[0].received_at) >= delay);
        assert forall|i: int| 0 <= i < rest.len() implies #[trigger] rest[i].sequence_number
            == seq_plus(next_seq(expected), i as nat) by {
            assert(rest[i] == packets[i + 1]);
            assert(packets[i + 1].sequence_number == seq_plus(expected, (i + 1) as nat));
            lemma_seq_plus_shift(expected, i as nat);
        }
        assert forall|i: int| 0 <= i < rest.len() implies span_between(
            now,
            #[trigger] rest[i].received_at,
        ) >= delay by {
            assert(rest[i] == packets[i + 1]);
        }
        law_in_order_packets_all_released(rest, next_seq(expected), now, delay);
        lemma_seq_plus_shift(expected, rest.len());
    }
}

proof fn lemma_seq_plus_shift(s: u16, k: nat)
    ensures
        seq_plus(s, k + 1) == seq_plus(next_seq(s), k),
    decreases k,
{
    assert(seq_plus(s, k + 1) == next_seq(seq_plus(s, k)));
    if k > 0 {
        lemma_seq_plus_shift(s, (k - 1) as nat);
        assert(seq_plus(next_seq(s), k) == next_seq(seq_plus(next_seq(s), (k - 1) as nat)));
    } else {
        assert(seq_plus(s, 0) == s);
        assert(seq_plus(next_seq(s), 0) == next_seq(s));
    }
}

/// A packet whose sequence number is not yet buffered is buffered after
/// insertion (before any eviction).
pub proof fn law_inserted_packet_is_buffered(packets: Seq<RtpPacket>, packet: RtpPacket)
    ensures
        ({
            let pos = insert_position(packets, packet.sequence_number);
            &&& pos <= packets.len()
            &&& packets.insert(pos as int, packet).contains(packet)
        }),
{
    lemma_insert_position_bound(packets, packet.sequence_number);
    let pos = insert_position(packets, packet.sequence_number);
    assert(packets.insert(pos as int, packet)[pos as int] == packet);
}

proof fn lemma_insert_position_bound(packets: Seq<RtpPacket>, seq: u16)
    ensures
        insert_position(packets, seq) <= packets.len(),
    decreases packets.len(),
{
    if packets.len() > 0 {
        lemma_insert_position_bound(packets.drop_first(), seq);
    }
}

/// Each packet comes after every packet before it, in RTP order.
pub open spec fn rtp_ordered(packets: Seq<RtpPacket>) -> bool {
    forall|i: int, j: int|
        0 <= i < j < packets.len() ==> seq_after(
            #[trigger] packets[j].sequence_number,
            #[trigger] packets[i].sequence_number,
        )
}

/// Every packet lies less than half the circle on from `base`.
pub open spec fn within_half_circle(packets: Seq<RtpPacket>, base: u16) -> bool {
    forall|k: int| 0 <= k < packets.len() ==> seq_distance(#[trigger] packets[k].sequence_number, base) < 0x8000
}

proof fn lemma_after_by_offset(a: u16, b: u16, base: u16)
    requires
        seq_distance(a, base) < 0x8000,
        seq_distance(b, base) < 0x8000,
    ensures
        seq_after(a, b) <==> seq_distance(a, base) > seq_distance(b, base),
{
}

proof fn lemma_insert_position_splits(packets: Seq<RtpPacket>, seq: u16, base: u16)
    requires
        rtp_ordered(packets),
        within_half_circle(packets, base),
        seq_distance(seq, base) < 0x8000,
        !holds_seq(packets, seq),
    ensures
        insert_position(packets, seq) <= packets.len(),
        forall|j: int|
            0 <= j < insert_position(packets, seq) ==> seq_distance(
                #[trigger] packets[j].sequence_number,
                base,
            ) < seq_distance(seq, base),
        forall|j: int|
            insert_position(packets, seq) <= j < packets.len() ==> seq_distance(
                #[trigger] packets[j].sequence_number,
                base,
            ) > seq_distance(seq, base),
    decreases packets.len(),
{
    lemma_insert_position_bound(packets, seq);
    if packets.len() > 0 {
        let p0 = packets[0].sequence_number;
        lemma_after_by_offset(p0, seq, base);
        if seq_after(p0, seq) {
            assert forall|j: int| 0 <= j < packets.len() implies seq_distance(
                #[trigger] packets[j].sequence_number,
                base,
            ) > seq_distance(seq, base) by {
                if j > 0 {
                    assert(seq_after(packets[j].sequence_number, packets[0].sequence_number));
                    lemma_after_by_offset(packets[j].sequence_number, p0, base);
                }
            }
        } else {
            let rest = packets.drop_first();
            assert forall|i: int, j: int| 0 <= i < j < rest.len() implies seq_after(
                #[trigger] rest[j].sequence_number,
                #[trigger] rest[i].sequence_number,
            ) by {
                assert(rest[i] == packets[i + 1] && rest[j] == packets[j + 1]);
            }
            assert forall|k: int| 0 <= k < rest.len() implies seq_distance(
                #[trigger] rest[k].sequence_number,
                base,
            ) < 0x8000 by {
                assert(rest[k] == packets[k + 1]);
            }
            assert(!holds_seq(rest, seq)) by {
                if holds_seq(rest, seq) {
                    let j = choose|j: int| 0 <= j < rest.len() && rest[j].sequence_number == seq;
                    assert(packets[j + 1] == rest[j]);
                }
            }
            lemma_insert_position_splits(rest, seq, base);
            assert(p0 != seq) by {
                if p0 == seq {
                    assert(holds_seq(packets, seq));
                }
            }
            let pos = insert_position(packets, seq);
            assert forall|j: int| 0 <= j < pos implies seq_distance(
                #[trigger] packets[j].sequence_number,
                base,
            ) < seq_distance(seq, base) by {
                if j > 0 {
                    assert(packets[j] == rest[j - 1]);
                }
            }
            assert forall|j: int| pos <= j < packets.len() implies seq_distance(
                #[trigger] packets[j].sequence_number,
                base,
            ) > seq_distance(seq, base) by {
                assert(packets[j] == rest[j - 1]);
            }
        }
    }
}

proof fn lemma_retained_keeps_rtp_order(packets: Seq<RtpPacket>, expected: u16, distance: u16)
    requires
        rtp_ordered(packets),
    ensures
        rtp_ordered(retained(packets, expected, distance)),
        forall|k: int|
            0 <= k < retained(packets, expected, distance).len() ==> packets.contains(
                #[trigger] retained(packets, expected, distance)[k],
            ),
    decreases packets.len(),
{
    reveal_with_fuel(Seq::<_>::filter, 1);
    if packets.len() > 0 {
        let d = packets.drop_last();
        let last = packets.last();
        assert forall|i: int, j: int| 0 <= i < j < d.len() implies seq_after(
            #[trigger] d[j].sequence_number,
            #[trigger] d[i].sequence_number,
        ) by {
            assert(d[i] == packets[i] && d[j] == packets[j]);
        }
        lemma_retained_keeps_rtp_order(d, expected, distance);
        let f = retained(d, expected, distance);
        let r = retained(packets, expected, distance);
        assert forall|k: int| 0 <= k < f.len() implies seq_after(
            last.sequence_number,
            #[trigger] f[k].sequence_number,
        ) && packets.contains(f[k]) by {
            assert(d.contains(f[k]));
            let m = choose|m: int| 0 <= m < d.len() && d[m] == f[k];
            assert(packets[m] == f[k]);
            assert(seq_after(packets[packets.len() - 1].sequence_number, packets[m].sequence_number));
        }
        if within_reorder_window(last.sequence_number, expected, distance) {
            assert(r == f.push(last));
            assert(packets[packets.len() - 1] == last);
        } else {
            assert(r == f);
        }
    }
}

/// A buffer in RTP order stays in RTP order when a new packet goes in at its
/// insertion position, so long as all its sequence numbers and the new one
/// lie within half the circle on from some `base` (before any eviction).
pub proof fn law_insert_keeps_rtp_order(packets: Seq<RtpPacket>, packet: RtpPacket, base: u16)
    requires
        rtp_ordered(packets),
        within_half_circle(packets, base),
        seq_distance(packet.sequence_number, base) < 0x8000,
        !holds_seq(packets, packet.sequence_number),
    ensures
        rtp_ordered(packets.insert(insert_position(packets, packet.sequence_number) as int, packet)),
{
    let seq = packet.sequence_number;
    lemma_insert_position_splits(packets, seq, base);
    let pos = insert_position(packets, seq) as int;
    let grown = packets.insert(pos, packet);
    assert forall|a: int, b: int| 0 <= a < b < grown.len() implies seq_after(
        #[trigger] grown[b].sequence_number,
        #[trigger] grown[a].sequence_number,
    ) by {
        let ga = grown[a].sequence_number;
        let gb = grown[b].sequence_number;
        if a < pos {
            assert(grown[a] == packets[a]);
        } else if a > pos {
            assert(grown[a] == packets[a - 1]);
        }
        if b < pos {
            assert(grown[b] == packets[b]);
        } else if b > pos {
            assert(grown[b] == packets[b - 1]);
        }
        if a < pos && b < pos {
            assert(seq_after(packets[b].sequence_number, packets[a].sequence_number));
        } else if a > pos && b > pos {
            assert(seq_after(packets[b - 1].sequence_number, packets[a - 1].sequence_number));
        } else if a < pos && b > pos {
            lemma_after_by_offset(gb, ga, base);
        } else {
            lemma_after_by_offset(gb, ga, base);
        }
    }
}

/// Sorted around the circle from `base`, packets that all lie within half
/// the circle on from `base` are in RTP order.
pub proof fn law_sorted_from_base_is_rtp_order(packets: Seq<RtpPacket>, base: u16)
    requires
        rtp_sorted_from(packets, base),
        within_half_circle(packets, base),
    ensures
        rtp_ordered(packets),
{
    assert forall|i: int, j: int| 0 <= i < j < packets.len() implies seq_after(
        #[trigger] packets[j].sequence_number,
        #[trigger] packets[i].sequence_number,
    ) by {
        lemma_after_by_offset(packets[j].sequence_number, packets[i].sequence_number, base);
    }
}

/// What a drain at `now` does to a buffer in state `before`, leaving it in
/// state `after` and releasing `output`: nothing before the first packet
/// has arrived; otherwise the buffer's front goes out as `drain_plan` says,
/// the lost count grows by the sequence numbers skipped, and the awaited
/// sequence number moves on. Nothing else changes.
pub open spec fn drained(before: JitterBuffer, after: JitterBuffer, output: Seq<RtpPacket>, now: Instant) -> bool {
    &&& match before.expected() {
        None => {
            &&& output == Seq::<RtpPacket>::empty()
            &&& after.packets() == before.packets()
            &&& after.expected() == before.expected()
            &&& after.lost() == before.lost()
        },
        Some(e) => {
            let plan = drain_plan(before.packets(), e, now, before.config().jitter_delay.micros);
            &&& output == before.packets().take(plan.0 as int)
            &&& after.packets() == before.packets().skip(plan.0 as int)
            &&& after.lost() == before.lost() + plan.1
            &&& after.expected() == Some(plan.2)
        },
    }
    &&& after.config() == before.config()
    &&& after.received() == before.received()
    &&& after.reordered() == before.reordered()
}

/// A sliding-window jitter buffer that reorders RTP packets.
pub struct JitterBuffer {
    buffer: VecDeque<RtpPacket>,
    expected_seq: Option<u16>,
    config: ReorderConfig,
    packets_received: u64,
    packets_reordered: u64,
    packets_lost: u64,
}

impl JitterBuffer {
    #[verifier::type_invariant]
    spec fn no_duplicate_seqs(self) -> bool {
        distinct_seqs(self.buffer@)
    }

    /// The buffered packets, front first.
    pub closed spec fn packets(&self) -> Seq<RtpPacket> {
        self.buffer@
    }

    /// The sequence number awaited next, once a packet has arrived.
    pub closed spec fn expected(&self) -> Option<u16> {
        self.expected_seq
    }

    pub closed spec fn config(&self) -> ReorderConfig {
        self.config
    }

    pub closed spec fn received(&self) -> u64 {
        self.packets_received
    }

    pub closed spec fn reordered(&self) -> u64 {
        self.packets_reordered
    }

    pub closed spec fn lost(&self) -> u64 {
        self.packets_lost
    }

    /// An empty jitter buffer with the given configuration.
    pub fn new(config: ReorderConfig) -> (jb: Self)
        ensures
            jb.packets() == Seq::<RtpPacket>::empty(),
            jb.expected() is None,
            jb.config() == config,
            jb.received() == 0,
            jb.reordered() == 0,
            jb.lost() == 0,
    {
        JitterBuffer {
            buffer: VecDeque::with_capacity(config.max_buffer_size),
            expected_seq: None,
            config,
            packets_received: 0,
            packets_reordered: 0,
            packets_lost: 0,
        }
    }

    /// `seq_a` comes after `seq_b` in RTP order, wrapping at 65535.
    fn seq_comes_after(&self, seq_a: u16, seq_b: u16) -> (r: bool)
        ensures
            r == seq_after(seq_a, seq_b),
    {
        let diff = seq_a.wrapping_sub(seq_b);
        diff > 0 && diff < 0x8000
    }

    /// Inserts a packet: a packet whose sequence number is already buffered
    /// is discarded; otherwise it goes before the first buffered packet that
    /// comes after it. The first packet ever inserted fixes the awaited
    /// sequence number, and an earlier packet moves it back. When the buffer
    /// grows past its capacity, stale packets are evicted.
    pub fn insert(&mut self, packet: RtpPacket)
        requires
            old(self).received() < u64::MAX,
            old(self).reordered() < u64::MAX,
        ensures
            ({
                let seq = packet.sequence_number;
                let awaited = match old(self).expected() {
                    Some(e) => e,
                    None => seq,
                };
                if holds_seq(old(self).packets(), seq) {
                    &&& final(self).packets() == old(self).packets()
                    &&& final(self).expected() == Some(awaited)
                    &&& final(self).reordered() == old(self).reordered()
                } else {
                    let pos = insert_position(old(self).packets(), seq);
                    let grown = old(self).packets().insert(pos as int, packet);
                    let awaited2 = if seq_after(awaited, seq) {
                        seq
                    } else {
                        awaited
                    };
                    let cfg = old(self).config();
                    let kept = retained(grown, awaited2, cfg.max_reorder_distance);
                    &&& final(self).reordered() == old(self).reordered() + (if pos
                        < old(self).packets().len() {
                        1int
                    } else {
                        0int
                    })
                    &&& if grown.len() > cfg.max_buffer_size {
                        &&& final(self).packets() == kept
                        &&& final(self).expected() == Some(
                            if kept.len() > cfg.max_buffer_size {
                                kept[0].sequence_number
                            } else {
                                awaited2
                            },
                        )
                    } else {
                        &&& final(self).packets() == grown
                        &&& final(self).expected() == Some(awaited2)
                    }
                }
            }),
            final(self).received() == old(self).received() + 1,
            final(self).lost() == old(self).lost(),
            final(self).config() == old(self).config(),
            distinct_seqs(final(self).packets()),
            forall|base: u16|
                rtp_ordered(old(self).packets()) && #[trigger] within_half_circle(
                    old(self).packets(),
                    base,
                ) && seq_distance(packet.sequence_number, base) < 0x8000 ==> rtp_ordered(
                    final(self).packets(),
                ),
    {
        proof {
            use_type_invariant(&*self);
        }
        self.packets_received = self.packets_received + 1;
        let seq = packet.sequence_number;
        if self.expected_seq.is_none() {
            self.expected_seq = Some(seq);
        }
        let len = self.buffer.len();
        let ghost snapshot = *self;
        let mut i: usize = 0;
        while i < len
            invariant
                *self == snapshot,
                self.buffer@ == old(self).buffer@,
                self.config == old(self).config,
                self.packets_received == old(self).packets_received + 1,
                self.packets_reordered == old(self).packets_reordered,
                self.packets_lost == old(self).packets_lost,
                self.expected_seq == (match old(self).expected_seq {
                    Some(e) => Some(e),
                    None => Some(seq),
                }),
                seq == packet.sequence_number,
                len == self.buffer@.len(),
                i <= len,
                forall|j: int| 0 <= j < i ==> self.buffer@[j].sequence_number != seq,
            decreases len - i,
        {
            if self.buffer[i].sequence_number == seq {
                proof {
                    assert(holds_seq(old(self).packets(), seq));
                    use_type_invariant(&*self);
                }
                return;
            }
            i = i + 1;
        }
        let mut pos: usize = 0;
        while pos < len
            invariant
                *self == snapshot,
                len == self.buffer@.len(),
                pos <= len,
                forall|j: int|
                    0 <= j < pos ==> !seq_after(#[trigger] self.buffer@[j].sequence_number, seq),
            ensures
                *self == snapshot,
                pos <= len,
                forall|j: int|
                    0 <= j < pos ==> !seq_after(#[trigger] self.buffer@[j].sequence_number, seq),
                pos < len ==> seq_after(self.buffer@[pos as int].sequence_number, seq),
            decreases len - pos,
        {
            if self.seq_comes_after(self.buffer[pos].sequence_number, seq) {
                break;
            }
            pos = pos + 1;
        }
        proof {
            lemma_insert_position(self.buffer@, seq, pos as int);
            let grown = self.buffer@.insert(pos as int, packet);
            assert forall|a: int, b: int|
                0 <= a < b < grown.len() implies grown[a].sequence_number
                != grown[b].sequence_number by {
                if a < pos && b < pos {
                } else if a < pos && b == pos {
                } else if a < pos {
                    assert(grown[b] == self.buffer@[b - 1]);
                } else if a == pos {
                    assert(grown[b] == self.buffer@[b - 1]);
                } else {
                    assert(grown[a] == self.buffer@[a - 1]);
                    assert(grown[b] == self.buffer@[b - 1]);
                }
            }
        }
        let mut buf: VecDeque<RtpPacket> = VecDeque::new();
        std::mem::swap(&mut buf, &mut self.buffer);
        if pos < len {
            buf.insert(pos, packet);
            self.packets_reordered = self.packets_reordered + 1;
        } else {
            buf.push_back(packet);
            proof {
                assert(buf@ =~= old(self).buffer@.insert(pos as int, packet));
            }
        }
        self.buffer = buf;
        if let Some(expected) = self.expected_seq {
            if self.seq_comes_after(expected, seq) {
                self.expected_seq = Some(seq);
            }
        }
        let ghost grown = self.buffer@;
        let ghost awaited = self.expected_seq;
        if self.buffer.len() > self.config.max_buffer_size {
            self.cleanup_stale_packets();
        }
        proof {
            use_type_invariant(&*self);
            assert(!holds_seq(old(self).packets(), seq));
            assert forall|base: u16|
                rtp_ordered(old(self).packets()) && #[trigger] within_half_circle(
                    old(self).packets(),
                    base,
                ) && seq_distance(packet.sequence_number, base) < 0x8000 implies rtp_ordered(
                self.buffer@,
            ) by {
                law_insert_keeps_rtp_order(old(self).packets(), packet, base);
                lemma_retained_keeps_rtp_order(
                    grown,
                    awaited.unwrap(),
                    self.config.max_reorder_distance,
                );
            }
        }
    }

    /// Evicts every packet outside the reorder window around the awaited
    /// sequence number; if the buffer is still over capacity, the awaited
    /// sequence number jumps to the front packet.
    fn cleanup_stale_packets(&mut self)
        ensures
            match old(self).expected() {
                None => {
                    &&& final(self).packets() == old(self).packets()
                    &&& final(self).expected() == old(self).expected()
                },
                Some(e) => {
                    let kept = retained(
                        old(self).packets(),
                        e,
                        old(self).config().max_reorder_distance,
                    );
                    &&& final(self).packets() == kept
                    &&& final(self).expected() == Some(
                        if kept.len() > old(self).config().max_buffer_size {
                            kept[0].sequence_number
                        } else {
                            e
                        },
                    )
                },
            },
            final(self).config() == old(self).config(),
            final(self).received() == old(self).received(),
            final(self).reordered() == old(self).reordered(),
            final(self).lost() == old(self).lost(),
    {
        proof {
            use_type_invariant(&*self);
        }
        if let Some(expected) = self.expected_seq {
            let distance = self.config.max_reorder_distance;
            let ghost orig = self.buffer@;
            let n = self.buffer.len();
            let mut rest: VecDeque<RtpPacket> = VecDeque::new();
            std::mem::swap(&mut rest, &mut self.buffer);
            let mut kept: VecDeque<RtpPacket> = VecDeque::new();
            let mut i: usize = 0;
            while i < n
                invariant
                    n == orig.len(),
                    i <= n,
                    distinct_seqs(orig),
                    rest@ == orig.skip(i as int),
                    kept@ == retained(orig.take(i as int), expected, distance),
                    distinct_seqs(kept@),
                    forall|k: int|
                        0 <= k < kept@.len() ==> holds_seq(
                            orig.take(i as int),
                            #[trigger] kept@[k].sequence_number,
                        ),
                decreases n - i,
            {
                proof {
                    assert(distinct_seqs(orig.skip(i as int).subrange(
                        1,
                        orig.skip(i as int).len() as int,
                    ))) by {
                        assert forall|a: int, b: int|
                            0 <= a < b < orig.skip(i as int).len() - 1 implies orig.skip(
                            i as int,
                        ).subrange(1, orig.skip(i as int).len() as int)[a].sequence_number
                            != orig.skip(i as int).subrange(
                            1,
                            orig.skip(i as int).len() as int,
                        )[b].sequence_number by {
                            assert(orig.skip(i as int).subrange(
                                1,
                                orig.skip(i as int).len() as int,
                            )[a] == orig[i + 1 + a]);
                            assert(orig.skip(i as int).subrange(
                                1,
                                orig.skip(i as int).len() as int,
                            )[b] == orig[i + 1 + b]);
                        }
                    }
                }
                let p = rest.pop_front().unwrap();
                let ghost kept_before = kept@;
                let diff = p.sequence_number.wrapping_sub(expected);
                proof {
                    reveal_with_fuel(Seq::<_>::filter, 1);
                    assert(orig.take(i + 1).drop_last() =~= orig.take(i as int));
                    assert(p == orig[i as int]);
                }
                if diff <= distance || diff >= u16::MAX - distance {
                    proof {
                        assert forall|k: int| 0 <= k < kept_before.len() implies kept_before[k].sequence_number
                            != p.sequence_number by {
                            assert(holds_seq(orig.take(i as int), kept_before[k].sequence_number));
                            let j = choose|j: int|
                                0 <= j < i && #[trigger] orig.take(i as int)[j].sequence_number
                                    == kept_before[k].sequence_number;
                            assert(orig.take(i as int)[j] == orig[j]);
                        }
                    }
                    kept.push_back(p);
                }
                proof {
                    assert forall|k: int| 0 <= k < kept@.len() implies holds_seq(
                        orig.take(i + 1),
                        #[trigger] kept@[k].sequence_number,
                    ) by {
                        if k < kept_before.len() {
                            assert(kept@[k] == kept_before[k]);
                            let j = choose|j: int|
                                0 <= j < i && #[trigger] orig.take(i as int)[j].sequence_number
                                    == kept_before[k].sequence_number;
                            assert(orig.take(i + 1)[j] == orig.take(i as int)[j]);
                        } else {
                            assert(orig.take(i + 1)[i as int] == kept@[k]);
                        }
                    }
                }
                i = i + 1;
            }
            proof {
                assert(orig.take(n as int) =~= orig);
            }
            self.buffer = kept;
            if self.buffer.len() > self.config.max_buffer_size {
                self.expected_seq = Some(self.buffer[0].sequence_number);
            }
        }
    }

    /// Releases, in sequence order, the packets that are ready at `now`: the
    /// awaited packet once it has been held for the jitter delay; a missing
    /// packet is declared lost once the front packet has waited more than
    /// twice the jitter delay.
    pub fn drain_ready_at(&mut self, now: Instant) -> (output: Vec<RtpPacket>)
        requires
            old(self).expected() is Some ==> old(self).lost() + drain_plan(
                old(self).packets(),
                old(self).expected()->0,
                now,
                old(self).config().jitter_delay.micros,
            ).1 <= u64::MAX,
        ensures
            drained(*old(self), *final(self), output@, now),
            forall|i: int|
                0 <= i < output@.len() ==> span_between(now, #[trigger] output@[i].received_at)
                    >= old(self).config().jitter_delay.micros,
            distinct_seqs(final(self).packets()),
    {
        proof {
            use_type_invariant(&*self);
        }
        let mut output: Vec<RtpPacket> = Vec::new();
        let mut expected: u16 = match self.expected_seq {
            Some(e) => e,
            None => {
                return output;
            },
        };
        let delay = self.config.jitter_delay;
        let ghost orig = self.buffer@;
        let ghost orig_lost = self.packets_lost as int;
        let ghost e0 = self.expected_seq.unwrap();
        let ghost goal = drain_plan(orig, e0, now, delay.micros);
        proof {
            lemma_drain_plan_bounds(orig, e0, now, delay.micros);
        }
        let mut buf: VecDeque<RtpPacket> = VecDeque::new();
        std::mem::swap(&mut buf, &mut self.buffer);
        let mut lost: u64 = self.packets_lost;
        loop
            invariant
                delay == self.config.jitter_delay,
                output@.len() <= orig.len(),
                output@ == orig.take(output@.len() as int),
                buf@ == orig.skip(output@.len() as int),
                goal == drain_plan(orig, e0, now, delay.micros),
                goal.0 == output@.len() + drain_plan(buf@, expected, now, delay.micros).0,
                goal.1 == (lost - orig_lost) + drain_plan(buf@, expected, now, delay.micros).1,
                goal.2 == drain_plan(buf@, expected, now, delay.micros).2,
                goal.0 <= orig.len(),
                goal.1 <= 0xffff * goal.0,
                orig_lost + goal.1 <= u64::MAX,
                lost >= orig_lost,
                forall|i: int|
                    0 <= i < goal.0 ==> span_between(now, #[trigger] orig[i].received_at)
                        >= delay.micros,
            ensures
                drain_plan(buf@, expected, now, delay.micros) == (0nat, 0nat, expected),
                output@.len() == goal.0,
            decreases buf@.len(),
                if buf@.len() > 0 {
                    seq_distance(buf@[0].sequence_number, expected)
                } else {
                    0
                },
        {
            if buf.len() == 0 {
                break;
            }
            let front_seq = buf[0].sequence_number;
            let age = now.saturating_duration_since(buf[0].received_at);
            if front_seq == expected {
                if age.micros >= delay.micros {
                    let ghost before = buf@;
                    let pkt = buf.pop_front().unwrap();
                    proof {
                        assert(before.drop_first() =~= buf@);
                        assert(orig.skip(output@.len() + 1int) =~= orig.skip(
                            output@.len() as int,
                        ).drop_first());
                        assert(orig.take(output@.len() + 1int) =~= orig.take(
                            output@.len() as int,
                        ).push(pkt));
                    }
                    expected = expected.wrapping_add(1);
                    output.push(pkt);
                } else {
                    break;
                }
            } else {
                if (age.micros as u128) > (delay.micros as u128) * 2 {
                    proof {
                        lemma_distance_step(front_seq, expected);
                        lemma_drain_plan_bounds(buf@.drop_first(), next_seq(front_seq), now, delay.micros);
                    }
                    lost = lost + 1;
                    expected = expected.wrapping_add(1);
                } else {
                    break;
                }
            }
        }
        proof {
            assert(output@.len() == goal.0);
        }
        self.buffer = buf;
        self.packets_lost = lost;
        self.expected_seq = Some(expected);
        output
    }

    /// Releases the packets that are ready now (see `drain_ready_at`).
    pub fn drain_ready(&mut self) -> (output: Vec<RtpPacket>)
        requires
            forall|now: Instant|
                old(self).expected() is Some ==> old(self).lost() + #[trigger] drain_plan(
                    old(self).packets(),
                    old(self).expected()->0,
                    now,
                    old(self).config().jitter_delay.micros,
                ).1 <= u64::MAX,
        ensures
            exists|now: Instant| #[trigger] drained(*old(self), *final(self), output@, now),
            output@.len() <= old(self).packets().len(),
            distinct_seqs(final(self).packets()),
    {
        let now = Instant::now();
        let output = self.drain_ready_at(now);
        proof {
            if let Some(e) = old(self).expected() {
                lemma_drain_plan_bounds(old(self).packets(), e, now, old(self).config().jitter_delay.micros);
            }
        }
        output
    }

    /// Empties the buffer (at shutdown) and returns every buffered packet in
    /// sequence order, counted around the sequence circle from the packet at
    /// the front of the buffer (so 0 follows 65535).
    pub fn drain_all(&mut self) -> (result: Vec<RtpPacket>)
        ensures
            final(self).packets() == Seq::<RtpPacket>::empty(),
            result@.len() == old(self).packets().len(),
            old(self).packets().len() > 0 ==> rtp_sorted_from(
                result@,
                old(self).packets()[0].sequence_number,
            ),
            forall|p: RtpPacket| result@.contains(p) <==> old(self).packets().contains(p),
            final(self).expected() == old(self).expected(),
            final(self).config() == old(self).config(),
            final(self).received() == old(self).received(),
            final(self).reordered() == old(self).reordered(),
            final(self).lost() == old(self).lost(),
    {
        proof {
            use_type_invariant(&*self);
        }
        let mut rest: VecDeque<RtpPacket> = VecDeque::new();
        std::mem::swap(&mut rest, &mut self.buffer);
        let ghost orig = rest@;
        let n = rest.len();
        let base: u16 = if n > 0 {
            rest[0].sequence_number
        } else {
            0
        };
        let mut result: Vec<RtpPacket> = Vec::new();
        let mut i: usize = 0;
        while i < n
            invariant
                n == orig.len(),
                n > 0 ==> base == orig[0].sequence_number,
                i <= n,
                distinct_seqs(orig),
                rest@ == orig.skip(i as int),
                result@.len() == i,
                rtp_sorted_from(result@, base),
                forall|p: RtpPacket| result@.contains(p) <==> orig.take(i as int).contains(p),
            decreases n - i,
        {
            let ghost before = result@;
            let p = rest.pop_front().unwrap();
            proof {
                assert(p == orig[i as int]);
                assert(orig.skip(i as int).drop_first() =~= orig.skip(i + 1));
            }
            let key = circle_offset(p.sequence_number, base);
            let mut k: usize = 0;
            while k < result.len()
                invariant
                    result@ == before,
                    key == seq_distance(p.sequence_number, base),
                    k <= result@.len(),
                    forall|j: int|
                        0 <= j < k ==> seq_distance(#[trigger] result@[j].sequence_number, base)
                            < key,
                ensures
                    k <= result@.len(),
                    forall|j: int|
                        0 <= j < k ==> seq_distance(#[trigger] result@[j].sequence_number, base)
                            < key,
                    k < result@.len() ==> key <= seq_distance(
                        result@[k as int].sequence_number,
                        base,
                    ),
                decreases result@.len() - k,
            {
                if key <= circle_offset(result[k].sequence_number, base) {
                    break;
                }
                k = k + 1;
            }
            proof {
                assert forall|j: int| 0 <= j < before.len() implies #[trigger] before[j].sequence_number
                    != p.sequence_number by {
                    assert(before.contains(before[j]));
                    assert(orig.take(i as int).contains(before[j]));
                    let m = choose|m: int| 0 <= m < i && orig.take(i as int)[m] == before[j];
                    assert(orig.take(i as int)[m] == orig[m]);
                }
            }
            result.insert(k, p);
            proof {
                let after = result@;
                assert(after =~= before.insert(k as int, p));
                assert forall|a: int, b: int| 0 <= a < b < after.len() implies seq_distance(
                    after[a].sequence_number,
                    base,
                ) < seq_distance(after[b].sequence_number, base) by {
                    if b < k {
                    } else if b == k {
                    } else if a < k {
                        assert(after[b] == before[b - 1]);
                    } else if a == k {
                        assert(after[b] == before[b - 1]);
                        assert(before[k as int].sequence_number != p.sequence_number);
                    } else {
                        assert(after[a] == before[a - 1]);
                        assert(after[b] == before[b - 1]);
                    }
                }
                assert(orig.take(i + 1) =~= orig.take(i as int).push(p));
                assert forall|q: RtpPacket| after.contains(q) <==> orig.take(i + 1).contains(q) by {
                    if after.contains(q) {
                        let m = choose|m: int| 0 <= m < after.len() && after[m] == q;
                        if m < k {
                            assert(before[m] == q);
                            assert(before.contains(q));
                        } else if m > k {
                            assert(before[m - 1] == q);
                            assert(before.contains(q));
                        }
                        if q == p {
                            assert(orig.take(i + 1)[i as int] == q);
                        } else {
                            assert(before.contains(q));
                            assert(orig.take(i as int).contains(q));
                            let m2 = choose|m2: int|
                                0 <= m2 < i && orig.take(i as int)[m2] == q;
                            assert(orig.take(i + 1)[m2] == q);
                        }
                        assert(orig.take(i + 1).contains(q));
                    }
                    if orig.take(i + 1).contains(q) {
                        if q == p {
                            assert(after[k as int] == q);
                        } else {
                            assert(orig.take(i as int).contains(q));
                            assert(before.contains(q));
                            let m = choose|m: int| 0 <= m < before.len() && before[m] == q;
                            if m < k {
                                assert(after[m] == q);
                            } else {
                                assert(after[m + 1] == q);
                            }
                        }
                    }
                }
            }
            i = i + 1;
        }
        proof {
            assert(orig.take(n as int) =~= orig);
        }
        result
    }

    /// Statistics: packets received, packets inserted out of order, sequence
    /// numbers declared lost, and packets currently buffered.
    pub fn stats(&self) -> (s: (u64, u64, u64, usize))
        ensures
            s == (self.received(), self.reordered(), self.lost(), self.packets().len() as usize),
    {
        (self.packets_received, self.packets_reordered, self.packets_lost, self.buffer.len())
    }
}

} // verus!
