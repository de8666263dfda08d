//! The just-in-time downlink queue of the concentrator.
//!
//! The concentrator counter (`count_us`) is a `u32` microsecond counter that
//! rolls over every ~71 minutes. The queue keeps a linear counter next to it,
//! which never rolls over, and schedules every downlink on that linear time line.
use std::time::Duration;
use vstd::prelude::*;

use crate::status::TxAckStatus;
use crate::time::{
    as_nanos, from_micros, from_nanos_u128, from_secs, nanos, NANOS_PER_MICRO,
};

verus! {

/// Delay between programming a transmission and the start of the emission.
pub const TX_START_DELAY_NANOS: u128 = 1_500_000;

/// Guard time between two transmissions.
pub const TX_MARGIN_DELAY_NANOS: u128 = 1_000_000;

/// How long before its start a packet is handed to the concentrator.
pub const TX_JIT_DELAY_NANOS: u128 = 30_000_000;

/// How far in advance a packet may be scheduled: `(3 + 1) * 128` seconds.
pub const TX_MAX_ADVANCE_DELAY_NANOS: u128 = 512_000_000_000;

/// The time before a packet that the concentrator is occupied with it
/// (start delay plus just-in-time delay).
pub const PRE_DELAY_NANOS: u128 = 31_500_000;

/// One full turn of the `u32` microsecond counter, in nanoseconds.
pub const COUNTER_TURN_NANOS: u128 = 4_294_967_296_000;

/// One second, in nanoseconds.
pub const ONE_SECOND_NANOS: u128 = 1_000_000_000;

/// The bound below which the queue keeps its linear time line (an eighth of the
/// range of `Duration`), so that no sum it forms can overflow.
pub const LINEAR_LIMIT_NANOS: u128 = 2_305_843_009_213_693_951_999_999_999;

#[derive(PartialEq, Eq, Structural, Copy, Clone, Debug)]
pub enum TxMode {
    Immediate,
    Timestamped,
    OnGPS,
}

/// A downlink packet, as the queue sees it.
///
/// The spec functions describe the packet's state: its time on air, its
/// transmission mode and its concentrator counter value.
pub trait TxPacket: Sized {
    /// The time on air of the packet, if it can be computed.
    spec fn spec_time_on_air(&self) -> Option<Duration>;

    /// The transmission mode of the packet.
    spec fn spec_tx_mode(&self) -> TxMode;

    /// The concentrator counter value at which the packet is to be sent.
    spec fn spec_count_us(&self) -> u32;

    fn get_time_on_air(&self) -> (r: anyhow::Result<Duration>)
        ensures
            r is Ok <==> self.spec_time_on_air() is Some,
            r is Ok ==> self.spec_time_on_air() == Some(r->Ok_0),
    ;

    fn get_tx_mode(&self) -> (m: TxMode)
        ensures
            m == self.spec_tx_mode(),
    ;

    fn get_id(&self) -> u32;

    fn set_tx_mode(&mut self, tx_mode: TxMode)
        ensures
            final(self).spec_tx_mode() == tx_mode,
            final(self).spec_count_us() == old(self).spec_count_us(),
            final(self).spec_time_on_air() == old(self).spec_time_on_air(),
    ;

    fn get_count_us(&self) -> (c: u32)
        ensures
            c == self.spec_count_us(),
    ;

    fn set_count_us(&mut self, count_us: u32)
        ensures
            final(self).spec_count_us() == count_us,
            final(self).spec_tx_mode() == old(self).spec_tx_mode(),
            final(self).spec_time_on_air() == old(self).spec_time_on_air(),
    ;
}

/// A queued packet with its place on the linear time line.
pub struct Item<T> {
    // This value is derived from the concentrator_count, but will always increment, instead of
    // periodically rollover as the concentrator_count does.
    linear_count: Duration,
    pre_delay: Duration,
    post_delay: Duration,
    packet: T,
}

impl<T> Item<T> {
    /// The linear time at which the packet is sent, in nanoseconds.
    pub closed spec fn spec_linear_count(&self) -> int {
        nanos(self.linear_count)
    }

    /// How long before its start the packet occupies the concentrator, in nanoseconds.
    pub closed spec fn spec_pre_delay(&self) -> int {
        nanos(self.pre_delay)
    }

    /// How long after its start the packet occupies the concentrator (its time on air),
    /// in nanoseconds.
    pub closed spec fn spec_post_delay(&self) -> int {
        nanos(self.post_delay)
    }

    /// The queued packet.
    pub closed spec fn spec_packet(&self) -> T {
        self.packet
    }

    pub fn linear_count(&self) -> (d: Duration)
        ensures
            nanos(d) == self.spec_linear_count(),
    {
        self.linear_count
    }

    pub fn pre_delay(&self) -> (d: Duration)
        ensures
            nanos(d) == self.spec_pre_delay(),
    {
        self.pre_delay
    }

    pub fn post_delay(&self) -> (d: Duration)
        ensures
            nanos(d) == self.spec_post_delay(),
    {
        self.post_delay
    }

    pub fn packet(&self) -> (p: &T)
        ensures
            *p == self.spec_packet(),
    {
        &self.packet
    }
}

/// The linear time that the concentrator counter `count` stands for, given that the
/// counter value `count_last` stood for the linear time `linear_last`: the counter is
/// taken to have advanced by less than one full turn since.
pub open spec fn count_to_linear(count_last: u32, linear_last: int, count: u32) -> int {
    linear_last + count.wrapping_sub(count_last) * 1000
}

/// The concentrator counter value for the linear time `linear` (not before `linear_last`),
/// given that the counter value `count_last` stood for the linear time `linear_last`.
pub open spec fn linear_to_count(count_last: u32, linear_last: int, linear: int) -> u32 {
    count_last.wrapping_add((((linear - linear_last) / 1000) % 0x1_0000_0000) as u32)
}

/// Whether a queued packet and a packet sent at `count` (occupying the concentrator
/// `pre` before and `post` after its start) are too close to each other.
pub open spec fn overlaps<T>(p: Item<T>, count: int, pre: int, post: int) -> bool {
    if count > p.spec_linear_count() {
        count - p.spec_linear_count() <= pre + p.spec_post_delay() + TX_MARGIN_DELAY_NANOS
    } else {
        p.spec_linear_count() - count <= p.spec_pre_delay() + post + TX_MARGIN_DELAY_NANOS
    }
}

/// Whether a packet sent at `count` collides with the transmission that ends at
/// `finished` or with one of the queued packets.
pub open spec fn collides<T>(items: Seq<Item<T>>, finished: int, count: int, pre: int, post: int) -> bool {
    ||| count < finished + pre + TX_MARGIN_DELAY_NANOS
    ||| exists|i: int| 0 <= i < items.len() && overlaps(#[trigger] items[i], count, pre, post)
}

/// The first slot after the queued packet `items[k]`, keeping the margin.
pub open spec fn slot_after<T>(items: Seq<Item<T>>, k: int, pre: int) -> int {
    items[k].spec_linear_count() + items[k].spec_post_delay() + pre + TX_MARGIN_DELAY_NANOS
}

/// The first of the slots after `items[k]`, `items[k + 1]`, ... that is free of
/// collisions, or the slot after the last packet when none is.
pub open spec fn scan_slots<T>(items: Seq<Item<T>>, finished: int, k: int, pre: int, post: int) -> int
    decreases items.len() - k,
{
    if k + 1 >= items.len() || !collides(items, finished, slot_after(items, k, pre), pre, post) {
        slot_after(items, k, pre)
    } else {
        scan_slots(items, finished, k + 1, pre, post)
    }
}

/// The slot that an immediate packet gets at linear time `now`: one second from now,
/// but not before the running transmission has ended; if that slot collides, the
/// first free slot after one of the queued packets.
pub open spec fn asap_slot<T>(items: Seq<Item<T>>, finished: int, now: int, post: int) -> int {
    let one_second = now + ONE_SECOND_NANOS;
    let not_before = finished + TX_MARGIN_DELAY_NANOS + PRE_DELAY_NANOS;
    let base = if one_second < not_before { not_before } else { one_second };
    if items.len() == 0 || !collides(items, finished, base, PRE_DELAY_NANOS as int, post) {
        base
    } else {
        scan_slots(items, finished, 0, PRE_DELAY_NANOS as int, post)
    }
}

/// Whether a packet at linear time `slot` can still be sent at linear time `now`:
/// not too late, and not too far in advance.
pub open spec fn lead_time_check(slot: int, now: int) -> Result<(), TxAckStatus> {
    if slot < now || slot - now < TX_START_DELAY_NANOS + TX_MARGIN_DELAY_NANOS + TX_JIT_DELAY_NANOS {
        Err(TxAckStatus::TooLate)
    } else if slot - now > TX_MAX_ADVANCE_DELAY_NANOS {
        Err(TxAckStatus::TooEarly)
    } else {
        Ok(())
    }
}

/// The linear time at which a packet is scheduled, or why it is refused, at linear
/// time `now` when the counter value `count` stands for `now`.
pub open spec fn schedule<T: TxPacket>(
    items: Seq<Item<T>>,
    capacity: nat,
    finished: int,
    count: u32,
    now: int,
    packet: T,
) -> Result<int, TxAckStatus> {
    if items.len() >= capacity {
        Err(TxAckStatus::QueueFull)
    } else {
        match packet.spec_time_on_air() {
            None => Err(TxAckStatus::InternalError),
            Some(time_on_air) => {
                if packet.spec_tx_mode() == TxMode::Immediate {
                    let slot = asap_slot(items, finished, now, nanos(time_on_air));
                    match lead_time_check(slot, now) {
                        Ok(_) => Ok(slot),
                        Err(e) => Err(e),
                    }
                } else {
                    let slot = count_to_linear(count, now, packet.spec_count_us());
                    if collides(items, finished, slot, PRE_DELAY_NANOS as int, nanos(time_on_air)) {
                        Err(TxAckStatus::CollisionPacket)
                    } else {
                        match lead_time_check(slot, now) {
                            Ok(_) => Ok(slot),
                            Err(e) => Err(e),
                        }
                    }
                }
            },
        }
    }
}

/// Every item occupies the concentrator the fixed pre-delay before its start, and its
/// time and time on air are below the linear limit.
pub open spec fn items_in_range<T>(items: Seq<Item<T>>) -> bool {
    forall|i: int|
        0 <= i < items.len() ==> {
            &&& #[trigger] items[i].spec_pre_delay() == PRE_DELAY_NANOS
            &&& items[i].spec_linear_count() <= 2 * LINEAR_LIMIT_NANOS
            &&& items[i].spec_post_delay() <= LINEAR_LIMIT_NANOS
        }
}

/// The items are in the order of their linear time.
pub open spec fn sorted_by_time<T>(items: Seq<Item<T>>) -> bool {
    forall|i: int, j: int|
        0 <= i < j < items.len() ==> #[trigger] items[i].spec_linear_count()
            <= #[trigger] items[j].spec_linear_count()
}

/// `new_items` is `old_items` with `new_items[pos]` inserted after every item that is
/// not later than it and before every item that is later.
pub open spec fn inserted_in_order<T>(old_items: Seq<Item<T>>, new_items: Seq<Item<T>>, pos: int) -> bool {
    &&& 0 <= pos <= old_items.len()
    &&& new_items == old_items.insert(pos, new_items[pos])
    &&& forall|j: int|
        0 <= j < pos ==> #[trigger] old_items[j].spec_linear_count() <= new_items[pos].spec_linear_count()
    &&& forall|j: int|
        pos <= j < old_items.len() ==> #[trigger] old_items[j].spec_linear_count()
            > new_items[pos].spec_linear_count()
}

/// `item` is the queue entry for `packet`, scheduled at linear time `slot`, where
/// `count` is the counter value for `slot`: an immediate packet becomes a
/// timestamped packet for `count`, any other packet is queued as it is.
pub open spec fn scheduled_item<T: TxPacket>(item: Item<T>, packet: T, slot: int, count: u32) -> bool {
    &&& item.spec_linear_count() == slot
    &&& item.spec_pre_delay() == PRE_DELAY_NANOS
    &&& packet.spec_time_on_air() matches Some(d) && item.spec_post_delay() == nanos(d)
    &&& if packet.spec_tx_mode() == TxMode::Immediate {
        &&& item.spec_packet().spec_tx_mode() == TxMode::Timestamped
        &&& item.spec_packet().spec_count_us() == count
        &&& item.spec_packet().spec_time_on_air() == packet.spec_time_on_air()
    } else {
        item.spec_packet() == packet
    }
}

/// Scanning the slots after `items[k]`, `items[k + 1]`, ...: when every slot before
/// `items[i]` collides and the one after `items[i]` is free (or `items[i]` is the
/// last item), the scan ends at the slot after `items[i]`.
pub proof fn lemma_scan_slots_ends_at<T>(items: Seq<Item<T>>, finished: int, k: int, i: int, pre: int, post: int)
    requires
        0 <= k <= i < items.len(),
        forall|j: int| k <= j < i ==> collides(items, finished, #[trigger] slot_after(items, j, pre), pre, post),
        i == items.len() - 1 || !collides(items, finished, slot_after(items, i, pre), pre, post),
    ensures
        scan_slots(items, finished, k, pre, post) == slot_after(items, i, pre),
    decreases i - k,
{
    if k < i {
        assert(collides(items, finished, slot_after(items, k, pre), pre, post));
        lemma_scan_slots_ends_at(items, finished, k + 1, i, pre, post);
    }
}

/// Dropping the first item keeps the items in order and in range.
pub proof fn lemma_drop_first_keeps_order<T>(items: Seq<Item<T>>)
    requires
        items.len() > 0,
        sorted_by_time(items),
        items_in_range(items),
    ensures
        sorted_by_time(items.drop_first()),
        items_in_range(items.drop_first()),
{
    let rest = items.drop_first();
    assert forall|a: int, b: int| 0 <= a < b < rest.len() implies #[trigger] rest[a].spec_linear_count()
        <= #[trigger] rest[b].spec_linear_count() by {
        assert(rest[a] == items[a + 1]);
        assert(rest[b] == items[b + 1]);
    }
    assert forall|j: int| 0 <= j < rest.len() implies {
        &&& #[trigger] rest[j].spec_pre_delay() == PRE_DELAY_NANOS
        &&& rest[j].spec_linear_count() <= 2 * LINEAR_LIMIT_NANOS
        &&& rest[j].spec_post_delay() <= LINEAR_LIMIT_NANOS
    } by {
        assert(rest[j] == items[j + 1]);
    }
}

/// A counter value read as a linear time and converted back is the counter value
/// itself: the conversions agree on every value of the counter.
pub proof fn lemma_count_linear_round_trip(count_last: u32, linear_last: int, count: u32)
    ensures
        count_to_linear(count_last, linear_last, count) >= linear_last,
        linear_to_count(count_last, linear_last, count_to_linear(count_last, linear_last, count)) == count,
{
    let diff = count.wrapping_sub(count_last);
    assert((diff * 1000) / 1000 == diff) by (nonlinear_arith);
    assert(diff as int % 0x1_0000_0000 == diff as int);
}

pub struct Queue<T> {
    items: Vec<Item<T>>,
    capacity: usize,
    tx_start_delay: Duration,
    tx_margin_delay: Duration,
    tx_jit_delay: Duration,
    tx_max_advance_delay: Duration,
    // The queue instance keeps track of the last concentrator_count and linear_count values in
    // order to convert a new concentrator_count value into a linear_count. Note that the
    // concentrator_count_last will rollover back to 0, the linear_count_last will always
    // increment.
    concentrator_count_last: u32,
    linear_count_last: Duration,
    // This value holds the linear counter value after finishing the last downlink transmission. We
    // need to store this as once the downlink is scheduled, it is popped from the queue and we no
    // longer know until when the concentrator is busy transmitting.
    tx_linear_count_finished: Duration,
}

impl<T: TxPacket + Copy> Queue<T> {
    /// The queued items, in the order of their linear time.
    pub closed spec fn spec_items(&self) -> Seq<Item<T>> {
        self.items@
    }

    /// The number of items the queue holds at most.
    pub closed spec fn spec_capacity(&self) -> nat {
        self.capacity as nat
    }

    /// The concentrator counter value of the last call.
    pub closed spec fn count_last(&self) -> u32 {
        self.concentrator_count_last
    }

    /// The linear time of the last call, in nanoseconds.
    pub closed spec fn linear_last(&self) -> int {
        nanos(self.linear_count_last)
    }

    /// The linear time at which the last handed-out transmission ends, in nanoseconds.
    pub closed spec fn finished(&self) -> int {
        nanos(self.tx_linear_count_finished)
    }

    /// The queue's invariant: fixed delays, at most `capacity` items, items in the
    /// order of their linear time, and all times below the linear limit.
    pub closed spec fn wf(&self) -> bool {
        &&& self.items@.len() <= self.capacity
        &&& nanos(self.tx_start_delay) == TX_START_DELAY_NANOS
        &&& nanos(self.tx_margin_delay) == TX_MARGIN_DELAY_NANOS
        &&& nanos(self.tx_jit_delay) == TX_JIT_DELAY_NANOS
        &&& nanos(self.tx_max_advance_delay) == TX_MAX_ADVANCE_DELAY_NANOS
        &&& self.linear_last() <= LINEAR_LIMIT_NANOS
        &&& self.finished() <= 3 * LINEAR_LIMIT_NANOS
        &&& sorted_by_time(self.items@)
        &&& items_in_range(self.items@)
    }

    /// There is room on the linear time line for the counter to advance by a full turn.
    pub open spec fn has_headroom(&self) -> bool {
        self.linear_last() + COUNTER_TURN_NANOS <= LINEAR_LIMIT_NANOS
    }

    /// An immediate packet that the queue would take gets a slot that is not
    /// before now: the counter value of an earlier slot cannot be told.
    pub open spec fn immediate_slot_ahead(&self, count: u32, packet: T) -> bool {
        packet.spec_tx_mode() == TxMode::Immediate && self.spec_items().len() < self.spec_capacity()
            ==> match packet.spec_time_on_air() {
            Some(d) => asap_slot(self.spec_items(), self.finished(), self.conc_to_lin(count), nanos(d))
                >= self.conc_to_lin(count),
            None => true,
        }
    }

    /// The linear time that the counter value `count` stands for at the next call.
    pub open spec fn conc_to_lin(&self, count: u32) -> int {
        count_to_linear(self.count_last(), self.linear_last(), count)
    }

    /// The counter value for the linear time `linear`.
    pub open spec fn lin_to_conc(&self, linear: int) -> u32 {
        linear_to_count(self.count_last(), self.linear_last(), linear)
    }

    /// The queue holds at most its capacity, in the order of linear time, and
    /// every item occupies the concentrator the fixed pre-delay before its start.
    pub proof fn lemma_queue_in_order(&self)
        requires
            self.wf(),
        ensures
            self.spec_items().len() <= self.spec_capacity(),
            sorted_by_time(self.spec_items()),
            forall|i: int|
                0 <= i < self.spec_items().len() ==> (#[trigger] self.spec_items()[i]).spec_pre_delay()
                    == PRE_DELAY_NANOS,
    {
    }

    /// The queue's two conversions agree: a counter value read as a linear time (never
    /// before the last one) and converted back is the counter value itself.
    pub proof fn lemma_conversions_round_trip(&self, count: u32)
        ensures
            self.conc_to_lin(count) >= self.linear_last(),
            self.lin_to_conc(self.conc_to_lin(count)) == count,
    {
        lemma_count_linear_round_trip(self.count_last(), self.linear_last(), count);
    }

    pub fn new(capacity: usize) -> (q: Queue<T>)
        ensures
            q.wf(),
            q.spec_items().len() == 0,
            q.spec_capacity() == capacity,
            q.count_last() == 0,
            q.linear_last() == 0,
            q.finished() == 0,
    {
        Queue {
            items: Vec::with_capacity(capacity),
            capacity,
            tx_start_delay: from_micros(1500),
            tx_margin_delay: from_micros(1000),
            tx_jit_delay: from_micros(30000),
            tx_max_advance_delay: from_secs((3 + 1) * 128),
            concentrator_count_last: 0,
            linear_count_last: from_secs(0),
            tx_linear_count_finished: from_secs(0),
        }
    }

    pub fn size(&self) -> (n: usize)
        ensures
            n == self.spec_capacity(),
    {
        self.capacity
    }

    pub fn empty(&self) -> (b: bool)
        ensures
            b == (self.spec_items().len() == 0),
    {
        self.items.len() == 0
    }

    pub fn full(&self) -> (b: bool)
        ensures
            b == (self.spec_items().len() == self.spec_capacity()),
    {
        self.items.len() == self.capacity
    }

    /// The queued items, in the order of their linear time.
    pub fn items(&self) -> (r: &Vec<Item<T>>)
        ensures
            r@ == self.spec_items(),
    {
        &self.items
    }

    pub fn tx_margin_delay(&self) -> (d: Duration)
        requires
            self.wf(),
        ensures
            nanos(d) == TX_MARGIN_DELAY_NANOS,
    {
        self.tx_margin_delay
    }

    /// Whether the linear time line has room for the counter to advance by a full turn.
    pub fn headroom(&self) -> (b: bool)
        requires
            self.wf(),
        ensures
            b == self.has_headroom(),
    {
        as_nanos(self.linear_count_last) + COUNTER_TURN_NANOS <= LINEAR_LIMIT_NANOS
    }

    pub fn pop(&mut self, concentrator_count: u32) -> (r: Option<T>)
        requires
            old(self).wf(),
            old(self).has_headroom(),
        ensures
            final(self).wf(),
            final(self).count_last() == concentrator_count,
            final(self).linear_last() == old(self).conc_to_lin(concentrator_count),
            final(self).spec_capacity() == old(self).spec_capacity(),
            ({
                let items = old(self).spec_items();
                let now = final(self).linear_last();
                if items.len() == 0 {
                    // nothing in the queue
                    &&& r is None
                    &&& final(self).spec_items() == items
                    &&& final(self).finished() == old(self).finished()
                } else if items[0].spec_linear_count() < now {
                    // the first packet is too old: it is dropped
                    &&& r is None
                    &&& final(self).spec_items() == items.drop_first()
                    &&& final(self).finished() == old(self).finished()
                } else if items[0].spec_linear_count() - now > items[0].spec_pre_delay() {
                    // the first packet is too far in advance
                    &&& r is None
                    &&& final(self).spec_items() == items
                    &&& final(self).finished() == old(self).finished()
                } else {
                    &&& r == Some(items[0].spec_packet())
                    &&& final(self).spec_items() == items.drop_first()
                    &&& final(self).finished() == items[0].spec_linear_count() + items[0].spec_post_delay()
                }
            }),
    {
        let linear_count = self.get_linear_count(concentrator_count);

        if self.items.len() == 0 {
            // nothing in the queue
            return None;
        }
        assert(self.items@[0].spec_pre_delay() == PRE_DELAY_NANOS);
        let first_linear = as_nanos(self.items[0].linear_count);
        if first_linear < linear_count {
            // it can happen if cpu load is too high but should normally not happen.
            self.items.remove(0);
            proof {
                lemma_drop_first_keeps_order(old(self).items@);
            }
            return None;
        }
        if first_linear - linear_count > as_nanos(self.items[0].pre_delay) {
            // packet is too far in advance
            return None;
        }

        let item = self.items.remove(0);
        proof {
            lemma_drop_first_keeps_order(old(self).items@);
        }

        // This value holds the counter when the concentrator is done transmitting the packet. This
        // is needed to detect possible collisions if enqueueing new packets.
        self.tx_linear_count_finished = from_nanos_u128(first_linear + as_nanos(item.post_delay));

        Some(item.packet)
    }

    pub fn enqueue(&mut self, concentrator_count: u32, packet: T) -> (r: Result<(), TxAckStatus>)
        requires
            old(self).wf(),
            old(self).has_headroom(),
            packet.spec_time_on_air() matches Some(d) ==> nanos(d) <= LINEAR_LIMIT_NANOS,
            old(self).immediate_slot_ahead(concentrator_count, packet),
        ensures
            final(self).wf(),
            final(self).count_last() == concentrator_count,
            final(self).linear_last() == old(self).conc_to_lin(concentrator_count),
            final(self).spec_capacity() == old(self).spec_capacity(),
            final(self).finished() == old(self).finished(),
            match schedule(
                old(self).spec_items(),
                old(self).spec_capacity(),
                old(self).finished(),
                concentrator_count,
                final(self).linear_last(),
                packet,
            ) {
                Err(e) => r == Err::<(), TxAckStatus>(e) && final(self).spec_items() == old(self).spec_items(),
                Ok(slot) => {
                    &&& r is Ok
                    &&& exists|pos: int|
                        {
                            &&& inserted_in_order(old(self).spec_items(), final(self).spec_items(), pos)
                            &&& scheduled_item(
                                #[trigger] final(self).spec_items()[pos],
                                packet,
                                slot,
                                final(self).lin_to_conc(slot),
                            )
                        }
                },
            },
    {
        let linear_count = self.get_linear_count(concentrator_count);
        let ghost now = linear_count as int;

        if self.full() {
            return Err(TxAckStatus::QueueFull);
        }

        let time_on_air = match packet.get_time_on_air() {
            Ok(v) => v,
            Err(_) => {
                return Err(TxAckStatus::InternalError);
            },
        };

        let pre_delay = as_nanos(self.tx_start_delay) + as_nanos(self.tx_jit_delay);
        let post_delay = as_nanos(time_on_air);
        let margin = as_nanos(self.tx_margin_delay);
        let ghost items = self.items@;
        let ghost finished = self.finished();

        let ghost given = packet;
        let mut packet = packet;
        let item_linear: u128;

        // An immediate downlink becomes a timestamped downlink "ASAP".
        // Set the packet count_us to the first available slot.
        if packet.get_tx_mode() == TxMode::Immediate {
            packet.set_tx_mode(TxMode::Timestamped);

            // use now + 1 sec
            let mut asap_count = linear_count + ONE_SECOND_NANOS;

            // eventual collision with currently running packet
            // not anymore in queue but still there
            let not_before_count = as_nanos(self.tx_linear_count_finished) + margin + pre_delay;
            if asap_count < not_before_count {
                asap_count = not_before_count;
            }
            let ghost base = asap_count as int;

            // check if there is a collision
            if self.collision_test(asap_count, pre_delay, post_delay) {
                let mut i: usize = 0;
                let mut found = false;
                while i < self.items.len() && !found
                    invariant
                        self.wf(),
                        self.items@ == items,
                        self.finished() == finished,
                        pre_delay == PRE_DELAY_NANOS,
                        margin == TX_MARGIN_DELAY_NANOS,
                        post_delay <= LINEAR_LIMIT_NANOS,
                        i <= items.len(),
                        collides(items, finished, base, pre_delay as int, post_delay as int),
                        found ==> i < items.len() && asap_count == slot_after(items, i as int, pre_delay as int)
                            && !collides(items, finished, asap_count as int, pre_delay as int, post_delay as int),
                        !found ==> (i == 0 ==> asap_count == base),
                        !found ==> (i > 0 ==> asap_count == slot_after(items, i - 1, pre_delay as int)),
                        forall|j: int|
                            0 <= j < i ==> collides(items, finished, #[trigger] slot_after(items, j, pre_delay as int), pre_delay as int, post_delay as int),
                    decreases items.len() - i + (if found { 0int } else { 1int }),
                {
                    let p = &self.items[i];
                    assert(items[i as int].spec_pre_delay() == PRE_DELAY_NANOS);
                    asap_count = as_nanos(p.linear_count) + as_nanos(p.post_delay) + pre_delay + margin;
                    if !self.collision_test(asap_count, pre_delay, post_delay) {
                        found = true;
                    } else {
                        i += 1;
                    }
                }
                proof {
                    if found {
                        lemma_scan_slots_ends_at(items, finished, 0, i as int, pre_delay as int, post_delay as int);
                    } else {
                        lemma_scan_slots_ends_at(items, finished, 0, i - 1, pre_delay as int, post_delay as int);
                    }
                }
            }
            item_linear = asap_count;
            packet.set_count_us(self.linear_count_to_concentrator_count(asap_count));
        } else {
            item_linear = self.concentrator_count_to_linear_count(packet.get_count_us());
            if packet.get_tx_mode() == TxMode::Timestamped {
                if self.collision_test(item_linear, pre_delay, post_delay) {
                    assert(schedule(items, old(self).spec_capacity(), finished, concentrator_count, now, given) == Err::<int, TxAckStatus>(TxAckStatus::CollisionPacket));
                    return Err(TxAckStatus::CollisionPacket);
                }
            } else if packet.get_tx_mode() == TxMode::OnGPS {
                if self.collision_test(item_linear, pre_delay, post_delay) {
                    return Err(TxAckStatus::CollisionPacket);
                }
            }
        }

        // Is it too late to send this packet?
        if item_linear < linear_count || item_linear - linear_count < as_nanos(self.tx_start_delay)
            + as_nanos(self.tx_margin_delay) + as_nanos(self.tx_jit_delay) {
            assert(schedule(items, old(self).spec_capacity(), finished, concentrator_count, now, given) == Err::<int, TxAckStatus>(TxAckStatus::TooLate));
            return Err(TxAckStatus::TooLate);
        }

        // Is it too early to send this packet?
        if item_linear - linear_count > as_nanos(self.tx_max_advance_delay) {
            assert(schedule(items, old(self).spec_capacity(), finished, concentrator_count, now, given) == Err::<int, TxAckStatus>(TxAckStatus::TooEarly));
            return Err(TxAckStatus::TooEarly);
        }

        let item = Item {
            linear_count: from_nanos_u128(item_linear),
            pre_delay: from_nanos_u128(pre_delay),
            post_delay: time_on_air,
            packet,
        };

        // keep the queue in the order of the linear time
        let mut pos: usize = 0;
        while pos < self.items.len() && as_nanos(self.items[pos].linear_count) <= item_linear
            invariant
                self.items@ == items,
                pos <= items.len(),
                forall|j: int| 0 <= j < pos ==> #[trigger] items[j].spec_linear_count() <= item_linear,
            decreases items.len() - pos,
        {
            pos += 1;
        }
        proof {
            assert forall|j: int| pos <= j < items.len() implies #[trigger] items[j].spec_linear_count() > item_linear by {
                assert(items[pos as int].spec_linear_count() <= items[j].spec_linear_count());
            }
        }
        self.items.insert(pos, item);
        proof {
            let new_items = self.items@;
            assert(new_items[pos as int] == item);
            assert(new_items == items.insert(pos as int, new_items[pos as int]));
            assert(inserted_in_order(items, new_items, pos as int));
            assert(schedule(items, old(self).spec_capacity(), finished, concentrator_count, now, given)
                == Ok::<int, TxAckStatus>(item_linear as int));
            assert(scheduled_item(new_items[pos as int], given, item_linear as int, self.lin_to_conc(item_linear as int)));
            assert(inserted_in_order(items, self.spec_items(), pos as int) && scheduled_item(
                self.spec_items()[pos as int], given, item_linear as int, self.lin_to_conc(item_linear as int)));
            assert forall|a: int, b: int| 0 <= a < b < new_items.len() implies #[trigger] new_items[a].spec_linear_count()
                <= #[trigger] new_items[b].spec_linear_count() by {
                if b < pos {
                } else if b == pos {
                } else if a < pos {
                    assert(new_items[b] == items[b - 1]);
                } else if a == pos {
                    assert(new_items[b] == items[b - 1]);
                } else {
                    assert(new_items[a] == items[a - 1]);
                    assert(new_items[b] == items[b - 1]);
                }
            }
            assert forall|j: int| 0 <= j < new_items.len() implies {
                &&& #[trigger] new_items[j].spec_pre_delay() == PRE_DELAY_NANOS
                &&& new_items[j].spec_linear_count() <= 2 * LINEAR_LIMIT_NANOS
                &&& new_items[j].spec_post_delay() <= LINEAR_LIMIT_NANOS
            } by {
                if j < pos {
                    assert(new_items[j] == items[j]);
                    assert(items[j].spec_pre_delay() == PRE_DELAY_NANOS);
                } else if j > pos {
                    assert(new_items[j] == items[j - 1]);
                    assert(items[j - 1].spec_pre_delay() == PRE_DELAY_NANOS);
                }
            }
        }
        Ok(())
    }

    fn get_linear_count(&mut self, concentrator_count: u32) -> (r: u128)
        requires
            old(self).wf(),
            old(self).has_headroom(),
        ensures
            final(self).wf(),
            final(self).count_last() == concentrator_count,
            final(self).linear_last() == old(self).conc_to_lin(concentrator_count),
            final(self).linear_last() >= old(self).linear_last(),
            r == final(self).linear_last(),
            final(self).spec_items() == old(self).spec_items(),
            final(self).spec_capacity() == old(self).spec_capacity(),
            final(self).finished() == old(self).finished(),
    {
        // Calculate the diff between the given concentrator_count and the concentrator_count_last,
        // so that we know by how many micro seconds we need to increment the linear_count_last.
        let diff_us = concentrator_count.wrapping_sub(self.concentrator_count_last);
        let linear = as_nanos(self.linear_count_last) + diff_us as u128 * NANOS_PER_MICRO;
        self.linear_count_last = from_nanos_u128(linear);
        self.concentrator_count_last = concentrator_count;
        linear
    }

    /// The counter value for the linear time `count` (nanoseconds), not before the
    /// linear time of the last call.
    pub fn linear_count_to_concentrator_count(&self, count: u128) -> (c: u32)
        requires
            self.wf(),
            count >= self.linear_last(),
        ensures
            c == self.lin_to_conc(count as int),
    {
        let diff_count = count - as_nanos(self.linear_count_last);
        let diff_us = diff_count / NANOS_PER_MICRO;
        self.concentrator_count_last.wrapping_add((diff_us % 0x1_0000_0000) as u32)
    }

    /// The linear time (nanoseconds) that the counter value `count_us` stands for: the
    /// first one at or after the linear time of the last call.
    pub fn concentrator_count_to_linear_count(&self, count_us: u32) -> (l: u128)
        requires
            self.wf(),
        ensures
            l == self.conc_to_lin(count_us),
    {
        let diff_us = count_us.wrapping_sub(self.concentrator_count_last);
        as_nanos(self.linear_count_last) + diff_us as u128 * NANOS_PER_MICRO
    }

    fn collision_test(&self, count: u128, pre_delay: u128, post_delay: u128) -> (b: bool)
        requires
            self.wf(),
            count <= 4 * LINEAR_LIMIT_NANOS,
            pre_delay <= LINEAR_LIMIT_NANOS,
            post_delay <= LINEAR_LIMIT_NANOS,
        ensures
            b == collides(self.spec_items(), self.finished(), count as int, pre_delay as int, post_delay as int),
    {
        let margin = as_nanos(self.tx_margin_delay);
        if count < as_nanos(self.tx_linear_count_finished) + pre_delay + margin {
            // a packet is currently running, then we need to take it into account
            return true;
        }
        let mut i: usize = 0;
        while i < self.items.len()
            invariant
                self.wf(),
                margin == TX_MARGIN_DELAY_NANOS,
                count <= 4 * LINEAR_LIMIT_NANOS,
                pre_delay <= LINEAR_LIMIT_NANOS,
                post_delay <= LINEAR_LIMIT_NANOS,
                i <= self.items@.len(),
                forall|j: int|
                    0 <= j < i ==> !overlaps(#[trigger] self.items@[j], count as int, pre_delay as int, post_delay as int),
            decreases self.items@.len() - i,
        {
            let p2 = &self.items[i];
            let p2_linear = as_nanos(p2.linear_count);
            let p2_pre = as_nanos(p2.pre_delay);
            let p2_post = as_nanos(p2.post_delay);
            assert(self.items@[i as int].spec_pre_delay() == PRE_DELAY_NANOS);
            if count > p2_linear {
                if count - p2_linear <= pre_delay + p2_post + margin {
                    assert(overlaps(self.items@[i as int], count as int, pre_delay as int, post_delay as int));
                    return true;
                }
            } else {
                if p2_linear - count <= p2_pre + post_delay + margin {
                    assert(overlaps(self.items@[i as int], count as int, pre_delay as int, post_delay as int));
                    return true;
                }
            }
            i += 1;
        }
        false
    }
}


/// A packet scheduled for its own time (not immediate) keeps clear of what occupies
/// the concentrator: it starts no earlier than the end of the transmission already
/// handed out plus its pre-delay and the margin, and for every queued packet it
/// starts more than that packet's time on air, its own pre-delay and the margin
/// after it, or ends its own time on air, the queued packet's pre-delay and the
/// margin before the queued packet starts.
pub proof fn lemma_scheduled_packet_keeps_clear<T: TxPacket>(
    items: Seq<Item<T>>,
    capacity: nat,
    finished: int,
    count: u32,
    now: int,
    packet: T,
    slot: int,
)
    requires
        schedule(items, capacity, finished, count, now, packet) == Ok::<int, TxAckStatus>(slot),
        packet.spec_tx_mode() != TxMode::Immediate,
    ensures
        packet.spec_time_on_air() is Some,
        slot >= finished + PRE_DELAY_NANOS + TX_MARGIN_DELAY_NANOS,
        forall|i: int|
            0 <= i < items.len() ==> {
                let q = #[trigger] items[i];
                let own = nanos(packet.spec_time_on_air()->0);
                &&& slot > q.spec_linear_count() ==> slot - q.spec_linear_count() > PRE_DELAY_NANOS
                    + q.spec_post_delay() + TX_MARGIN_DELAY_NANOS
                &&& slot <= q.spec_linear_count() ==> q.spec_linear_count() - slot > q.spec_pre_delay() + own
                    + TX_MARGIN_DELAY_NANOS
            },
{
    let d = nanos(packet.spec_time_on_air()->0);
    assert(!collides(items, finished, slot, PRE_DELAY_NANOS as int, d));
    assert forall|i: int| 0 <= i < items.len() implies {
        let q = #[trigger] items[i];
        let own = nanos(packet.spec_time_on_air()->0);
        &&& slot > q.spec_linear_count() ==> slot - q.spec_linear_count() > PRE_DELAY_NANOS + q.spec_post_delay()
            + TX_MARGIN_DELAY_NANOS
        &&& slot <= q.spec_linear_count() ==> q.spec_linear_count() - slot > q.spec_pre_delay() + own
            + TX_MARGIN_DELAY_NANOS
    } by {
        assert(!overlaps(items[i], slot, PRE_DELAY_NANOS as int, d));
    }
}


/// The linear time line advances with the counter: the last counter value stands
/// for the last linear time, and one more microsecond on the counter (short of a
/// full turn) is 1000 ns more on the line; the counter value of a linear time goes
/// the other way, one microsecond per 1000 ns.
pub proof fn lemma_linear_counter_rate(count_last: u32, linear_last: int, count: u32, linear: int)
    requires
        count.wrapping_sub(count_last) < u32::MAX,
        linear >= linear_last,
    ensures
        count_to_linear(count_last, linear_last, count_last) == linear_last,
        count_to_linear(count_last, linear_last, count.wrapping_add(1)) == count_to_linear(
            count_last,
            linear_last,
            count,
        ) + 1000,
        linear_to_count(count_last, linear_last, linear_last) == count_last,
        linear_to_count(count_last, linear_last, linear + 1000) == linear_to_count(
            count_last,
            linear_last,
            linear,
        ).wrapping_add(1),
{
    assert(count_last.wrapping_sub(count_last) == 0) by (bit_vector);
    let d = count.wrapping_sub(count_last);
    assert(count.wrapping_add(1).wrapping_sub(count_last) == d + 1) by (bit_vector)
        requires
            d == count.wrapping_sub(count_last),
            d < 0xffff_ffffu32,
    ;
    let us = (linear - linear_last) / 1000;
    assert((linear + 1000 - linear_last) / 1000 == us + 1);
    let a = (us % 0x1_0000_0000) as u32;
    let b = ((us + 1) % 0x1_0000_0000) as u32;
    assert(b == a.wrapping_add(1));
    assert(count_last.wrapping_add(b) == count_last.wrapping_add(a).wrapping_add(1)) by (bit_vector)
        requires
            b == a.wrapping_add(1),
    ;
    assert(count_last.wrapping_add(0) == count_last) by (bit_vector);
}


/// Where a packet is scheduled on the linear time line: never less than 32.5 ms
/// (start, margin and just-in-time delays) nor more than 512 s after now; a packet
/// that is not immediate at the linear time of its own counter value; and an
/// immediate packet, when nothing is queued and the running transmission (with the
/// pre-delay and the margin) is over within a second, one second from now.
pub proof fn lemma_schedule_lead_time<T: TxPacket>(
    items: Seq<Item<T>>,
    capacity: nat,
    finished: int,
    count: u32,
    now: int,
    packet: T,
)
    ensures
        schedule(items, capacity, finished, count, now, packet) matches Ok(slot) ==> now + 32_500_000 <= slot
            <= now + 512_000_000_000,
        packet.spec_tx_mode() != TxMode::Immediate ==> (schedule(items, capacity, finished, count, now, packet) matches Ok(
            slot,
        ) ==> slot == now + packet.spec_count_us().wrapping_sub(count) * 1000),
        packet.spec_tx_mode() == TxMode::Immediate && items.len() == 0 && items.len() < capacity
            && packet.spec_time_on_air() is Some && finished + 32_500_000 <= now + 1_000_000_000 ==> schedule(
            items,
            capacity,
            finished,
            count,
            now,
            packet,
        ) == Ok::<int, TxAckStatus>(now + 1_000_000_000),
{
}

} // verus!
