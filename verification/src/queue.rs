//! The single-producer single-consumer ring buffer of the MemPool-IPC data plane.
//!
//! The ring has `RING_SIZE` slots; each holds a sequence number and a payload
//! word. A message with sequence number `seq` goes to slot `seq % RING_SIZE`.
//! The producer writes the payload and then the sequence number; the consumer
//! expecting `seq` takes the payload once the slot's sequence number has reached
//! `seq`. Sequence numbers start at 1, so a freshly zeroed ring holds no message.
//!
//! This module states the protocol over the contents of the ring, one operation
//! at a time; the acquire and release ordering that makes the two sides agree
//! across cores belongs to the memory accesses that carry it out.

use vstd::prelude::*;

verus! {

/// Number of slots in the ring (a power of two).
pub const RING_SIZE: usize = 1024;

/// The payload that the producer core sends in the cluster test.
pub const TEST_PAYLOAD: u32 = 0xDEAD_BEEF;

/// One slot of the ring: the sequence number of the message last published in
/// it, and its payload.
#[derive(Clone, Copy, Debug, PartialEq, Eq, Structural)]
pub struct QueueSlot {
    pub sequence: u32,
    pub data: u32,
}

/// The ring of slots with the producer's and the consumer's next sequence numbers.
pub struct HardwareQueue {
    ring: Vec<QueueSlot>,
    next_producer_seq: u32,
    next_consumer_seq: u32,
}

/// The slot that carries the message with sequence number `seq`.
pub open spec fn slot_of(seq: u32) -> int {
    seq as int % RING_SIZE as int
}

/// The contents of a freshly initialised ring: every slot holds sequence 0 and
/// payload 0.
pub open spec fn initial_slots() -> Seq<QueueSlot> {
    Seq::new(RING_SIZE as nat, |i: int| QueueSlot { sequence: 0, data: 0 })
}

/// The ring after publishing `msg` with sequence number `seq`.
pub open spec fn published(slots: Seq<QueueSlot>, seq: u32, msg: u32) -> Seq<QueueSlot> {
    slots.update(slot_of(seq), QueueSlot { sequence: seq, data: msg })
}

/// What a consumer expecting sequence number `expected` takes from the ring: the
/// payload of the slot once its sequence number has reached `expected`, and
/// nothing before.
pub open spec fn consumed(slots: Seq<QueueSlot>, expected: u32) -> Option<u32> {
    let slot = slots[slot_of(expected)];
    if slot.sequence >= expected {
        Some(slot.data)
    } else {
        None
    }
}

/// The ring after publishing `msgs` in order, the first with sequence number
/// `first_seq` and each next one with the next sequence number.
pub open spec fn published_all(slots: Seq<QueueSlot>, first_seq: u32, msgs: Seq<u32>) -> Seq<
    QueueSlot,
>
    decreases msgs.len(),
{
    if msgs.len() == 0 {
        slots
    } else {
        published(
            published_all(slots, first_seq, msgs.drop_last()),
            (first_seq + msgs.len() - 1) as u32,
            msgs.last(),
        )
    }
}

/// The slot of a sequence number is its remainder modulo the ring size, that is
/// its low ten bits.
pub proof fn lemma_slot_is_low_bits(seq: u32)
    ensures
        slot_of(seq) == seq as int % 1024,
        slot_of(seq) == (seq & 1023u32) as int,
{
    assert((seq & 1023u32) == seq % 1024u32) by (bit_vector);
}

/// A consumer takes a payload only from a slot whose sequence number has reached
/// the one it expects, and then takes that slot's payload; from a slot holding an
/// older sequence number it takes nothing.
pub proof fn lemma_consume_waits_for_its_sequence(slots: Seq<QueueSlot>, expected: u32)
    requires
        slots.len() == RING_SIZE,
    ensures
        slots[expected as int % 1024].sequence < expected ==> consumed(slots, expected) == None::<
            u32,
        >,
        slots[expected as int % 1024].sequence >= expected ==> consumed(slots, expected) == Some(
            slots[expected as int % 1024].data,
        ),
        consumed(slots, expected) is Some ==> slots[expected as int % 1024].sequence >= expected,
{
}

/// Publishing writes exactly the slot of its sequence number, with that sequence
/// number and the payload, and no other slot.
pub proof fn lemma_publish_writes_its_slot(slots: Seq<QueueSlot>, seq: u32, msg: u32)
    requires
        slots.len() == RING_SIZE,
    ensures
        published(slots, seq, msg).len() == RING_SIZE,
        published(slots, seq, msg)[seq as int % 1024] == (QueueSlot { sequence: seq, data: msg }),
        forall|i: int|
            0 <= i < 1024 && i != seq as int % 1024 ==> #[trigger] published(slots, seq, msg)[i]
                == slots[i],
{
}

/// After a message is published, a consumer a full lap later, expecting the
/// sequence number that will next use the same slot, still takes nothing.
pub proof fn lemma_next_lap_waits(slots: Seq<QueueSlot>, seq: u32, msg: u32)
    requires
        slots.len() == RING_SIZE,
        seq + RING_SIZE <= u32::MAX,
    ensures
        consumed(published(slots, seq, msg), (seq + RING_SIZE) as u32) == None::<u32>,
{
}

/// Sequence numbers of one lap of the ring go to distinct slots, and a sequence
/// number a full lap later goes to the same slot.
pub proof fn lemma_slots_of_one_lap(seq1: u32, seq2: u32)
    ensures
        seq1 < seq2 < seq1 + RING_SIZE ==> slot_of(seq1) != slot_of(seq2),
        seq2 == seq1 + RING_SIZE ==> slot_of(seq1) == slot_of(seq2),
        0 <= slot_of(seq1) < RING_SIZE,
{
}

/// A consumer expecting the sequence number just published takes the message
/// published with it.
pub proof fn lemma_read_after_publish(slots: Seq<QueueSlot>, seq: u32, msg: u32)
    requires
        slots.len() == RING_SIZE,
    ensures
        consumed(published(slots, seq, msg), seq) == Some(msg),
{
}

/// Publishing leaves every message whose slot is another one as it was.
pub proof fn lemma_publish_keeps_other_slots(
    slots: Seq<QueueSlot>,
    seq: u32,
    msg: u32,
    expected: u32,
)
    requires
        slots.len() == RING_SIZE,
        slot_of(expected) != slot_of(seq),
    ensures
        consumed(published(slots, seq, msg), expected) == consumed(slots, expected),
{
}

/// A freshly initialised ring holds no message: a consumer expecting any
/// sequence number from 1 on takes nothing.
pub proof fn lemma_fresh_ring_is_empty(expected: u32)
    requires
        expected >= 1,
    ensures
        consumed(initial_slots(), expected) == None::<u32>,
{
}

/// A producer a full lap ahead overwrites the slot of a message not yet taken:
/// the consumer expecting the older sequence number then takes the newer payload.
pub proof fn lemma_lapping_producer_overwrites(
    slots: Seq<QueueSlot>,
    seq: u32,
    old_msg: u32,
    new_msg: u32,
)
    requires
        slots.len() == RING_SIZE,
        seq + RING_SIZE <= u32::MAX,
    ensures
        consumed(
            published(published(slots, seq, old_msg), (seq + RING_SIZE) as u32, new_msg),
            seq,
        ) == Some(new_msg),
{
}

/// Messages published in order with consecutive sequence numbers, no more than
/// one lap of the ring, are each taken by the consumer expecting their sequence
/// number, in whatever state the ring was before.
pub proof fn lemma_one_lap_is_delivered(
    slots: Seq<QueueSlot>,
    first_seq: u32,
    msgs: Seq<u32>,
    i: int,
)
    requires
        slots.len() == RING_SIZE,
        msgs.len() <= RING_SIZE,
        first_seq + msgs.len() <= u32::MAX + 1,
        0 <= i < msgs.len(),
    ensures
        published_all(slots, first_seq, msgs).len() == RING_SIZE,
        consumed(published_all(slots, first_seq, msgs), (first_seq + i) as u32) == Some(msgs[i]),
    decreases msgs.len(),
{
    lemma_published_all_len(slots, first_seq, msgs);
    let n = msgs.len();
    let prefix = msgs.drop_last();
    let last_seq = (first_seq + n - 1) as u32;
    lemma_published_all_len(slots, first_seq, prefix);
    if i == n - 1 {
        lemma_read_after_publish(published_all(slots, first_seq, prefix), last_seq, msgs.last());
    } else {
        lemma_one_lap_is_delivered(slots, first_seq, prefix, i);
        lemma_slots_of_one_lap((first_seq + i) as u32, last_seq);
        lemma_publish_keeps_other_slots(
            published_all(slots, first_seq, prefix),
            last_seq,
            msgs.last(),
            (first_seq + i) as u32,
        );
    }
}

/// Publishing keeps the number of slots.
proof fn lemma_published_all_len(slots: Seq<QueueSlot>, first_seq: u32, msgs: Seq<u32>)
    requires
        slots.len() == RING_SIZE,
    ensures
        published_all(slots, first_seq, msgs).len() == slots.len(),
    decreases msgs.len(),
{
    if msgs.len() > 0 {
        lemma_published_all_len(slots, first_seq, msgs.drop_last());
    }
}

impl HardwareQueue {
    #[verifier::type_invariant]
    spec fn ring_has_all_slots(self) -> bool {
        self.ring.len() == RING_SIZE
    }

    /// The slots of the ring, in index order.
    pub closed spec fn slots(&self) -> Seq<QueueSlot> {
        self.ring@
    }

    /// The sequence number the producer publishes next.
    pub closed spec fn producer_seq(&self) -> u32 {
        self.next_producer_seq
    }

    /// The sequence number the consumer expects next.
    pub closed spec fn consumer_seq(&self) -> u32 {
        self.next_consumer_seq
    }

    /// A ring with every slot zeroed, and both sides starting at sequence number 1.
    pub fn new() -> (q: HardwareQueue)
        ensures
            q.slots() == initial_slots(),
            q.producer_seq() == 1,
            q.consumer_seq() == 1,
            q.slots().len() == RING_SIZE,
    {
        let mut ring: Vec<QueueSlot> = Vec::new();
        let mut i: usize = 0;
        while i < RING_SIZE
            invariant
                i <= RING_SIZE,
                ring@.len() == i,
                forall|j: int| 0 <= j < i ==> ring@[j] == (QueueSlot { sequence: 0, data: 0 }),
            decreases RING_SIZE - i,
        {
            ring.push(QueueSlot { sequence: 0, data: 0 });
            i = i + 1;
        }
        assert(ring@ =~= initial_slots());
        HardwareQueue { ring, next_producer_seq: 1, next_consumer_seq: 1 }
    }

    /// Take the producer's next sequence number, and advance it.
    pub fn claim_producer_seq(&mut self) -> (seq: u32)
        requires
            old(self).producer_seq() < u32::MAX,
        ensures
            seq == old(self).producer_seq(),
            final(self).producer_seq() == seq + 1,
            final(self).consumer_seq() == old(self).consumer_seq(),
            final(self).slots() == old(self).slots(),
            final(self).slots().len() == RING_SIZE,
    {
        proof {
            use_type_invariant(&*self);
        }
        let seq = self.next_producer_seq;
        self.next_producer_seq = seq + 1;
        seq
    }

    /// Take the consumer's next expected sequence number, and advance it.
    pub fn claim_consumer_seq(&mut self) -> (seq: u32)
        requires
            old(self).consumer_seq() < u32::MAX,
        ensures
            seq == old(self).consumer_seq(),
            final(self).consumer_seq() == seq + 1,
            final(self).producer_seq() == old(self).producer_seq(),
            final(self).slots() == old(self).slots(),
            final(self).slots().len() == RING_SIZE,
    {
        proof {
            use_type_invariant(&*self);
        }
        let seq = self.next_consumer_seq;
        self.next_consumer_seq = seq + 1;
        seq
    }
}

/// Index of the slot that carries sequence number `seq`: its low bits.
pub fn slot_index(seq: u32) -> (i: usize)
    ensures
        i == slot_of(seq),
        i == seq as int % 1024,
        i == (seq & 1023u32) as int,
        i < RING_SIZE,
{
    let x: usize = seq as usize;
    assert((x & 1023usize) == x % 1024usize) by (bit_vector);
    assert((seq & 1023u32) == seq % 1024u32) by (bit_vector);
    x & (RING_SIZE - 1)
}

/// Publish `msg` with sequence number `seq`: its slot takes the payload and then
/// the sequence number; every other slot stays as it was.
pub fn publish_message(q: &mut HardwareQueue, seq: u32, msg: u32)
    ensures
        old(q).slots().len() == RING_SIZE,
        final(q).slots() == published(old(q).slots(), seq, msg),
        final(q).slots().len() == RING_SIZE,
        final(q).slots()[seq as int % 1024] == (QueueSlot { sequence: seq, data: msg }),
        forall|i: int|
            0 <= i < 1024 && i != seq as int % 1024 ==> #[trigger] final(q).slots()[i] == old(
                q,
            ).slots()[i],
        final(q).producer_seq() == old(q).producer_seq(),
        final(q).consumer_seq() == old(q).consumer_seq(),
{
    proof {
        use_type_invariant(&*q);
    }
    let index = slot_index(seq);
    q.ring[index] = QueueSlot { sequence: seq, data: msg };
}

/// Take the message with sequence number `expected_seq`: its payload once its
/// slot's sequence number has reached `expected_seq`, `None` before.
pub fn consume_message(q: &HardwareQueue, expected_seq: u32) -> (r: Option<u32>)
    ensures
        r == consumed(q.slots(), expected_seq),
        q.slots().len() == RING_SIZE,
        q.slots()[expected_seq as int % 1024].sequence >= expected_seq ==> r == Some(
            q.slots()[expected_seq as int % 1024].data,
        ),
        q.slots()[expected_seq as int % 1024].sequence < expected_seq ==> r == None::<u32>,
{
    proof {
        use_type_invariant(q);
    }
    let index = slot_index(expected_seq);
    let slot = q.ring[index];
    if slot.sequence >= expected_seq {
        Some(slot.data)
    } else {
        None
    }
}

/// The exit code of the consumer core in the cluster test: 0 where it received
/// the test payload, -1 on a mismatch.
pub fn consumer_exit_code(received: u32) -> (code: i32)
    ensures
        code == (if received == TEST_PAYLOAD { 0i32 } else { -1i32 }),
{
    if received != TEST_PAYLOAD {
        -1
    } else {
        0
    }
}

} // verus!
