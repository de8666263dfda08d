//! A just-in-time downlink queue that schedules on the concentrator counter itself.
//!
//! The concentrator counter (`count_us`) is a `u32` microsecond counter that rolls
//! over every ~71 minutes: every distance between two counter values is taken
//! modulo 2^32, so a packet "ahead" of the counter is one that the counter reaches
//! first when it counts on.
use std::time::Duration;
use vstd::prelude::*;

use crate::time::{as_micros, as_nanos, from_micros, from_nanos_u128, from_secs, micros, nanos};

verus! {

broadcast use {vstd::seq_lib::group_seq_properties, vstd::seq_lib::group_to_multiset_ensures, vstd::multiset::group_multiset_axioms};

/// Delay between programming a transmission and the start of the emission (µs).
pub const TX_START_DELAY_US: u32 = 1500;

/// Guard time between two transmissions (µs).
pub const TX_MARGIN_DELAY_US: u32 = 1000;

/// How long before its start a packet is handed to the concentrator (µs).
pub const TX_JIT_DELAY_US: u32 = 30000;

/// How far in advance a packet may be scheduled: `(3 + 1) * 128` seconds (µs).
pub const TX_MAX_ADVANCE_DELAY_US: u32 = 512_000_000;

/// The time before a packet that the concentrator is occupied with it: start delay
/// plus just-in-time delay (µs).
pub const PRE_DELAY_US: u32 = 31500;

/// How far from now an immediate packet is scheduled at the earliest (µs).
pub const ASAP_DELAY_US: u32 = 1_000_000;

/// The longest time on air (µs, cut to the 32 bits of the counter) that the
/// collision test can add the pre-delay and the margin to within the counter.
pub const MAX_TIME_ON_AIR_US: u32 = 4_294_934_795;

#[derive(PartialEq, Eq, Debug)]
pub enum EnqueueError {
    Unknown(String),
    Collision,
    FullQueue,
    TooLate,
    TooEarly,
}

#[derive(PartialEq, Eq, Structural, Copy, Clone, Debug)]
pub enum TxMode {
    Immediate,
    Timestamped,
    OnGPS,
}

/// A downlink packet, as the queue sees it.
///
/// The spec functions describe the packet's state: its time on air (or why it has
/// none), its transmission mode and its concentrator counter value.
pub trait TxPacket: Sized {
    /// The time on air of the packet, or the error that computing it gives.
    spec fn spec_time_on_air(&self) -> Result<Duration, String>;

    /// The transmission mode of the packet.
    spec fn spec_tx_mode(&self) -> TxMode;

    /// The concentrator counter value at which the packet is to be sent.
    spec fn spec_count_us(&self) -> u32;

    fn get_time_on_air(&self) -> (r: Result<Duration, String>)
        ensures
            r == self.spec_time_on_air(),
    ;

    fn get_tx_mode(&self) -> (m: TxMode)
        ensures
            m == self.spec_tx_mode(),
    ;

    fn get_id(&self) -> String;

    fn set_tx_mode(&mut self, tx_mode: TxMode)
        ensures
            final(self).spec_tx_mode() == tx_mode,
            final(self).spec_count_us() == old(self).spec_count_us(),
            final(self).spec_time_on_air() == old(self).spec_time_on_air(),
    ;

    fn get_count_us(&self) -> (c: u32)
        ensures
            c == self.spec_count_us(),
    ;

    fn set_count_us(&mut self, count_us: u32)
        ensures
            final(self).spec_count_us() == count_us,
            final(self).spec_tx_mode() == old(self).spec_tx_mode(),
            final(self).spec_time_on_air() == old(self).spec_time_on_air(),
    ;
}

/// A queued packet with the time it occupies the concentrator around its start.
pub struct Item<T> {
    pre_delay: Duration,
    post_delay: Duration,
    packet: T,
}

impl<T> Item<T> {
    /// How long before its start the packet occupies the concentrator, in nanoseconds.
    pub closed spec fn spec_pre_delay(&self) -> int {
        nanos(self.pre_delay)
    }

    /// How long after its start the packet occupies the concentrator (its time on
    /// air), in nanoseconds.
    pub closed spec fn spec_post_delay(&self) -> int {
        nanos(self.post_delay)
    }

    /// The queued packet.
    pub closed spec fn spec_packet(&self) -> T {
        self.packet
    }

    /// The pre-delay in whole microseconds.
    pub open spec fn pre_us(&self) -> int {
        self.spec_pre_delay() / 1000
    }

    /// The post-delay in whole microseconds.
    pub open spec fn post_us(&self) -> int {
        self.spec_post_delay() / 1000
    }

    pub fn pre_delay(&self) -> (d: Duration)
        ensures
            nanos(d) == self.spec_pre_delay(),
    {
        self.pre_delay
    }

    pub fn post_delay(&self) -> (d: Duration)
        ensures
            nanos(d) == self.spec_post_delay(),
    {
        self.post_delay
    }

    pub fn packet(&self) -> (p: &T)
        ensures
            *p == self.spec_packet(),
    {
        &self.packet
    }
}

/// The counter value at which a queued packet is sent.
pub open spec fn item_count<T: TxPacket>(p: Item<T>) -> u32 {
    p.spec_packet().spec_count_us()
}

/// How far ahead of `now` the queued packet `p` is, on the rolling counter.
pub open spec fn sort_key<T: TxPacket>(p: Item<T>, now: u32) -> u32 {
    item_count(p).wrapping_sub(now)
}

/// A time in microseconds as the collision test takes it: cut to the 32 bits of
/// the counter.
pub open spec fn counter_us(us: int) -> int {
    us % 0x1_0000_0000
}

/// Whether the queued packet `p` and a packet sent at `count` (occupying the
/// concentrator `pre` µs before and `post` µs after its start) are too close: the
/// new packet starts too soon after `p`, or `p` starts too soon after it.
pub open spec fn too_close<T: TxPacket>(p: Item<T>, count: u32, pre: int, post: int) -> bool {
    ||| count.wrapping_sub(item_count(p)) <= counter_us(pre) + counter_us(p.post_us()) + TX_MARGIN_DELAY_US
    ||| item_count(p).wrapping_sub(count) <= counter_us(p.pre_us()) + counter_us(post) + TX_MARGIN_DELAY_US
}

/// The sums that the collision test forms stay within the counter: the pre-delay
/// and the margin added to the time on air `post` µs of the new packet, or to that
/// of any queued packet.
/// The sums that the collision test forms for a packet occupying the concentrator
/// `pre` µs before and `post` µs after its start stay within the counter, for each
/// queued packet.
pub open spec fn collision_sums_fit_with<T>(items: Seq<Item<T>>, pre: int, post: int) -> bool {
    forall|i: int|
        0 <= i < items.len() ==> {
            &&& counter_us(pre) + counter_us(#[trigger] items[i].post_us()) + TX_MARGIN_DELAY_US <= u32::MAX
            &&& counter_us(items[i].pre_us()) + counter_us(post) + TX_MARGIN_DELAY_US <= u32::MAX
        }
}

pub open spec fn collision_sums_fit<T>(items: Seq<Item<T>>, post: int) -> bool {
    &&& counter_us(post) <= MAX_TIME_ON_AIR_US
    &&& forall|i: int| 0 <= i < items.len() ==> counter_us(#[trigger] items[i].post_us()) <= MAX_TIME_ON_AIR_US
}

/// Whether a packet sent at `count` collides with one of the queued packets.
pub open spec fn collides<T: TxPacket>(items: Seq<Item<T>>, count: u32, pre: int, post: int) -> bool {
    exists|i: int| 0 <= i < items.len() && too_close(#[trigger] items[i], count, pre, post)
}

/// The first slot after the queued packet `items[k]`, keeping the margin.
pub open spec fn slot_after<T: TxPacket>(items: Seq<Item<T>>, k: int, pre: int) -> u32 {
    item_count(items[k]).wrapping_add((items[k].post_us() + pre + TX_MARGIN_DELAY_US) as u32)
}

/// The first of the slots after `items[k]`, `items[k + 1]`, ... that is free of
/// collisions, or the slot after the last packet when none is.
pub open spec fn scan_slots<T: TxPacket>(items: Seq<Item<T>>, k: int, pre: int, post: int) -> u32
    decreases items.len() - k,
{
    if k + 1 >= items.len() || !collides(items, slot_after(items, k, pre), pre, post) {
        slot_after(items, k, pre)
    } else {
        scan_slots(items, k + 1, pre, post)
    }
}

/// The slot that an immediate packet gets at counter value `now`: one second ahead
/// of now; if that slot collides, the first free slot after one of the queued
/// packets (or the slot after the last of them).
pub open spec fn asap_slot<T: TxPacket>(items: Seq<Item<T>>, now: u32, post: int) -> u32 {
    let base = now.wrapping_add(ASAP_DELAY_US);
    if !collides(items, base, PRE_DELAY_US as int, post) {
        base
    } else {
        scan_slots(items, 0, PRE_DELAY_US as int, post)
    }
}

/// Whether a packet at counter value `slot` can still be sent at `now`: it is at
/// least the start, margin and just-in-time delays ahead, and not further ahead
/// than the maximum advance.
pub open spec fn lead_time_check(slot: u32, now: u32) -> Result<(), EnqueueError> {
    if slot.wrapping_sub(now) < TX_START_DELAY_US + TX_MARGIN_DELAY_US + TX_JIT_DELAY_US {
        Err(EnqueueError::TooLate)
    } else if slot.wrapping_sub(now) > TX_MAX_ADVANCE_DELAY_US {
        Err(EnqueueError::TooEarly)
    } else {
        Ok(())
    }
}

/// The counter value at which an immediate or timestamped packet with time on air
/// `post` µs is scheduled at `now`, or why it is refused.
pub open spec fn slot_for<T: TxPacket>(items: Seq<Item<T>>, now: u32, packet: T, post: int) -> Result<u32, EnqueueError> {
    if packet.spec_tx_mode() == TxMode::Immediate {
        let slot = asap_slot(items, now, post);
        match lead_time_check(slot, now) {
            Ok(_) => Ok(slot),
            Err(e) => Err(e),
        }
    } else if collides(items, packet.spec_count_us(), PRE_DELAY_US as int, post) {
        Err(EnqueueError::Collision)
    } else {
        match lead_time_check(packet.spec_count_us(), now) {
            Ok(_) => Ok(packet.spec_count_us()),
            Err(e) => Err(e),
        }
    }
}

/// `item` is the queue entry for `packet` with time on air `time_on_air`, sent at
/// counter value `slot`: an immediate packet becomes a timestamped packet for
/// `slot`, any other packet is queued as it is.
pub open spec fn scheduled_item<T: TxPacket>(item: Item<T>, packet: T, time_on_air: Duration, slot: u32) -> bool {
    &&& item.spec_pre_delay() == PRE_DELAY_US * 1000
    &&& item.spec_post_delay() == nanos(time_on_air)
    &&& if packet.spec_tx_mode() == TxMode::Immediate {
        &&& item.spec_packet().spec_tx_mode() == TxMode::Timestamped
        &&& item.spec_packet().spec_count_us() == slot
        &&& item.spec_packet().spec_time_on_air() == packet.spec_time_on_air()
    } else {
        item.spec_packet() == packet
    }
}

/// `perm` shows `dst` to be `src[lo..]` sorted by how far each packet is ahead of
/// `now`, keeping the order of packets that are equally far ahead: `dst[k]` is
/// `src[perm[k]]`, no index is taken twice, and equal keys keep their order.
pub open spec fn sorted_witness<T: TxPacket>(src: Seq<Item<T>>, lo: int, dst: Seq<Item<T>>, now: u32, perm: Seq<int>) -> bool {
    &&& 0 <= lo <= src.len()
    &&& perm.len() == dst.len()
    &&& dst.len() == src.len() - lo
    &&& forall|k: int| 0 <= k < dst.len() ==> lo <= #[trigger] perm[k] < src.len() && dst[k] == src[perm[k]]
    &&& forall|a: int, b: int| 0 <= a < b < dst.len() ==> #[trigger] perm[a] != #[trigger] perm[b]
    &&& forall|a: int, b: int|
        0 <= a < b < dst.len() ==> sort_key(#[trigger] dst[a], now) <= sort_key(#[trigger] dst[b], now)
    &&& forall|a: int, b: int|
        0 <= a < b < dst.len() && sort_key(#[trigger] dst[a], now) == sort_key(#[trigger] dst[b], now) ==> perm[a]
            < perm[b]
}

/// `dst` is `src` stably sorted by how far each packet is ahead of `now`.
pub open spec fn stably_sorted<T: TxPacket>(src: Seq<Item<T>>, dst: Seq<Item<T>>, now: u32) -> bool {
    exists|perm: Seq<int>| sorted_witness(src, 0, dst, now, perm)
}

/// `new_items` is `items` with the entry for `packet` (time on air `time_on_air`,
/// sent at counter value `slot`) added, stably sorted by how far each packet is
/// ahead of `now`: the same entries, each as often, in that order.
pub open spec fn queued_at<T: TxPacket>(
    items: Seq<Item<T>>,
    now: u32,
    packet: T,
    time_on_air: Duration,
    slot: u32,
    new_items: Seq<Item<T>>,
) -> bool {
    exists|item: Item<T>|
        {
            &&& #[trigger] scheduled_item(item, packet, time_on_air, slot)
            &&& stably_sorted(items.push(item), new_items, now)
            &&& new_items.to_multiset() == items.push(item).to_multiset()
        }
}

/// What `enqueue` of `packet` at counter value `now` does to a queue holding `items`
/// with room for `capacity`: it returns `r` and leaves `new_items`.
pub open spec fn enqueue_outcome<T: TxPacket>(
    items: Seq<Item<T>>,
    capacity: nat,
    now: u32,
    packet: T,
    r: Result<(), EnqueueError>,
    new_items: Seq<Item<T>>,
) -> bool {
    if items.len() >= capacity {
        r == Err::<(), EnqueueError>(EnqueueError::FullQueue) && new_items == items
    } else {
        match packet.spec_time_on_air() {
            Err(e) => r == Err::<(), EnqueueError>(EnqueueError::Unknown(e)) && new_items == items,
            Ok(time_on_air) => if packet.spec_tx_mode() == TxMode::OnGPS {
                &&& r matches Err(EnqueueError::Unknown(s)) && s@ == "TODO"@
                &&& new_items == items
            } else {
                match slot_for(items, now, packet, micros(time_on_air)) {
                    Err(e) => r == Err::<(), EnqueueError>(e) && new_items == items,
                    Ok(slot) => r is Ok && queued_at(items, now, packet, time_on_air, slot, new_items),
                }
            },
        }
    }
}

pub struct Queue<T> {
    items: Vec<Item<T>>,
    capacity: usize,
    tx_start_delay: Duration,
    tx_margin_delay: Duration,
    tx_jit_delay: Duration,
    tx_max_advance_delay: Duration,
}

impl<T: TxPacket + Copy> Queue<T> {
    /// The queued items, in the order in which they leave the queue.
    pub closed spec fn spec_items(&self) -> Seq<Item<T>> {
        self.items@
    }

    /// The number of items the queue holds at most.
    pub closed spec fn spec_capacity(&self) -> nat {
        self.capacity as nat
    }

    /// The queue's invariant: fixed delays, at most `capacity` items, each occupying
    /// the concentrator the pre-delay before its start and at most the longest time
    /// on air after it.
    pub closed spec fn wf(&self) -> bool {
        &&& self.items@.len() <= self.capacity
        &&& nanos(self.tx_start_delay) == TX_START_DELAY_US * 1000
        &&& nanos(self.tx_margin_delay) == TX_MARGIN_DELAY_US * 1000
        &&& nanos(self.tx_jit_delay) == TX_JIT_DELAY_US * 1000
        &&& nanos(self.tx_max_advance_delay) == TX_MAX_ADVANCE_DELAY_US * 1000
        &&& forall|i: int|
            0 <= i < self.items@.len() ==> (#[trigger] self.items@[i]).spec_pre_delay() == PRE_DELAY_US * 1000
    }

    /// The queue holds at most its capacity, and every item occupies the
    /// concentrator the fixed pre-delay before its start.
    pub proof fn lemma_queue_bounded(&self)
        requires
            self.wf(),
        ensures
            self.spec_items().len() <= self.spec_capacity(),
            forall|i: int|
                0 <= i < self.spec_items().len() ==> (#[trigger] self.spec_items()[i]).pre_us() == PRE_DELAY_US,
    {
        assert forall|i: int| 0 <= i < self.spec_items().len() implies (#[trigger] self.spec_items()[i]).pre_us()
            == PRE_DELAY_US by {
            assert(self.items@[i].spec_pre_delay() == PRE_DELAY_US * 1000);
        }
    }

    pub fn new(capacity: usize) -> (q: Queue<T>)
        ensures
            q.wf(),
            q.spec_items().len() == 0,
            q.spec_capacity() == capacity,
    {
        Queue {
            items: Vec::with_capacity(capacity),
            capacity,
            tx_start_delay: from_micros(1500),
            tx_margin_delay: from_micros(1000),
            tx_jit_delay: from_micros(30000),
            tx_max_advance_delay: from_secs((3 + 1) * 128),
        }
    }

    pub fn size(&self) -> (n: usize)
        ensures
            n == self.spec_capacity(),
    {
        self.capacity
    }

    pub fn empty(&self) -> (b: bool)
        ensures
            b == (self.spec_items().len() == 0),
    {
        self.items.len() == 0
    }

    pub fn full(&self) -> (b: bool)
        ensures
            b == (self.spec_items().len() == self.spec_capacity()),
    {
        self.items.len() == self.capacity
    }

    /// The queued items, in the order in which they leave the queue.
    pub fn items(&self) -> (r: &Vec<Item<T>>)
        ensures
            r@ == self.spec_items(),
    {
        &self.items
    }

    pub fn tx_margin_delay(&self) -> (d: Duration)
        requires
            self.wf(),
        ensures
            nanos(d) == TX_MARGIN_DELAY_US * 1000,
    {
        self.tx_margin_delay
    }

    pub fn pop(&mut self, concentrator_count: u32) -> (r: Option<T>)
        requires
            old(self).wf(),
        ensures
            final(self).wf(),
            final(self).spec_capacity() == old(self).spec_capacity(),
            ({
                let items = old(self).spec_items();
                if items.len() == 0 {
                    // nothing in the queue
                    r is None && final(self).spec_items() == items
                } else if sort_key(items[0], concentrator_count) > items[0].pre_us() {
                    // the first packet is too far in advance
                    r is None && final(self).spec_items() == items
                } else {
                    r == Some(items[0].spec_packet()) && final(self).spec_items() == items.drop_first()
                }
            }),
    {
        if self.items.len() == 0 {
            // nothing in the queue
            return None;
        }
        assert(self.items@[0].spec_pre_delay() == PRE_DELAY_US * 1000);
        let first = &self.items[0];
        if first.packet.get_count_us().wrapping_sub(concentrator_count) > as_micros(first.pre_delay) as u32 {
            // packet is too far in advance
            return None;
        }

        let item = self.items.remove(0);
        assert forall|i: int| 0 <= i < self.items@.len() implies (#[trigger] self.items@[i]).spec_pre_delay()
            == PRE_DELAY_US * 1000 by {
            assert(self.items@[i] == old(self).items@[i + 1]);
        }

        Some(item.packet)
    }

    pub fn enqueue(&mut self, concentrator_count: u32, packet: T) -> (r: Result<(), EnqueueError>)
        requires
            old(self).wf(),
            0 < old(self).spec_items().len() < old(self).spec_capacity() && packet.spec_tx_mode() != TxMode::OnGPS
                ==> match packet.spec_time_on_air() {
                Ok(d) => collision_sums_fit(old(self).spec_items(), micros(d)),
                Err(_) => true,
            },
        ensures
            final(self).wf(),
            final(self).spec_capacity() == old(self).spec_capacity(),
            enqueue_outcome(
                old(self).spec_items(),
                old(self).spec_capacity(),
                concentrator_count,
                packet,
                r,
                final(self).spec_items(),
            ),
    {
        if self.full() {
            return Err(EnqueueError::FullQueue);
        }

        let time_on_air = match packet.get_time_on_air() {
            Ok(v) => v,
            Err(err) => {
                return Err(EnqueueError::Unknown(err));
            },
        };

        let ghost items = self.items@;
        let ghost given = packet;
        let ghost post = micros(time_on_air);
        let pre_delay = from_nanos_u128(as_nanos(self.tx_start_delay) + as_nanos(self.tx_jit_delay));
        let mut item = Item { pre_delay, post_delay: time_on_air, packet };

        // An immediate downlink becomes a timestamped downlink "ASAP".
        // Set the packet count_us to the first available slot.
        if item.packet.get_tx_mode() == TxMode::Immediate {
            item.packet.set_tx_mode(TxMode::Timestamped);

            // use now + 1 sec
            let mut asap_count_us = concentrator_count.wrapping_add(as_micros(from_secs(1)) as u32);
            let ghost base = asap_count_us;

            // check if there is a collision
            if self.collision_test(asap_count_us, item.pre_delay, item.post_delay) {
                let margin = as_micros(self.tx_margin_delay);
                let pre = as_micros(item.pre_delay);
                let mut i: usize = 0;
                let mut found = false;
                while i < self.items.len() && !found
                    invariant
                        self.wf(),
                        self.items@ == items,
                        margin == TX_MARGIN_DELAY_US,
                        pre == PRE_DELAY_US,
                        micros(item.pre_delay) == PRE_DELAY_US,
                        micros(item.post_delay) == post,
                        items.len() > 0 ==> collision_sums_fit(items, post),
                        i <= items.len(),
                        collides(items, base, pre as int, post),
                        found ==> i < items.len() && asap_count_us == slot_after(items, i as int, pre as int)
                            && !collides(items, asap_count_us, pre as int, post),
                        !found ==> (i == 0 ==> asap_count_us == base),
                        !found ==> (i > 0 ==> asap_count_us == slot_after(items, i - 1, pre as int)),
                        forall|j: int|
                            0 <= j < i ==> collides(items, #[trigger] slot_after(items, j, pre as int), pre as int, post),
                    decreases items.len() - i + (if found { 0int } else { 1int }),
                {
                    let p = &self.items[i];
                    asap_count_us = p.packet.get_count_us().wrapping_add(
                        (as_micros(p.post_delay) + pre + margin) as u32,
                    );
                    if !self.collision_test(asap_count_us, item.pre_delay, item.post_delay) {
                        found = true;
                    } else {
                        i += 1;
                    }
                }
                proof {
                    if found {
                        lemma_scan_slots_ends_at(items, 0, i as int, pre as int, post);
                    } else {
                        lemma_scan_slots_ends_at(items, 0, i - 1, pre as int, post);
                    }
                }
            }

            item.packet.set_count_us(asap_count_us);
        } else if item.packet.get_tx_mode() == TxMode::Timestamped {
            if self.collision_test(item.packet.get_count_us(), item.pre_delay, item.post_delay) {
                return Err(EnqueueError::Collision);
            }
        } else if item.packet.get_tx_mode() == TxMode::OnGPS {
            return Err(EnqueueError::Unknown("TODO".to_string()));
        }

        // Is it too late to send this packet?
        let lead = item.packet.get_count_us().wrapping_sub(concentrator_count);
        if lead < (as_micros(self.tx_start_delay) + as_micros(self.tx_margin_delay) + as_micros(self.tx_jit_delay)) as u32 {
            return Err(EnqueueError::TooLate);
        }

        // Is it too early to send this packet?
        if lead > as_micros(self.tx_max_advance_delay) as u32 {
            return Err(EnqueueError::TooEarly);
        }

        let ghost queued = item;
        assert(scheduled_item(queued, given, time_on_air, item.packet.spec_count_us()));
        self.items.push(item);
        let ghost pushed = self.items@;
        self.sort(concentrator_count);
        proof {
            let slot = queued.spec_packet().spec_count_us();
            assert(pushed == items.push(queued));
            assert(slot_for(items, concentrator_count, given, post) == Ok::<u32, EnqueueError>(slot));
            assert(queued_at(items, concentrator_count, given, time_on_air, slot, self.items@));
        }

        Ok(())
    }

    /// Sorts the queue by how far each packet is ahead of `count_us`, keeping the
    /// order of packets that are equally far ahead.
    fn sort(&mut self, count_us: u32)
        requires
            forall|i: int|
                0 <= i < old(self).items@.len() ==> (#[trigger] old(self).items@[i]).spec_pre_delay() == PRE_DELAY_US
                    * 1000,
            old(self).items@.len() <= old(self).capacity,
            nanos(old(self).tx_start_delay) == TX_START_DELAY_US * 1000,
            nanos(old(self).tx_margin_delay) == TX_MARGIN_DELAY_US * 1000,
            nanos(old(self).tx_jit_delay) == TX_JIT_DELAY_US * 1000,
            nanos(old(self).tx_max_advance_delay) == TX_MAX_ADVANCE_DELAY_US * 1000,
        ensures
            final(self).wf(),
            final(self).capacity == old(self).capacity,
            stably_sorted(old(self).items@, final(self).items@, count_us),
            final(self).items@.to_multiset() == old(self).items@.to_multiset(),
    {
        let ghost src_items = self.items@;
        let mut src: Vec<Item<T>> = Vec::new();
        std::mem::swap(&mut src, &mut self.items);
        let mut sorted: Vec<Item<T>> = Vec::new();
        let ghost mut perm: Seq<int> = Seq::empty();
        while src.len() > 0
            invariant
                src@ == src_items.take(src@.len() as int),
                src@.len() <= src_items.len(),
                sorted_witness(src_items, src@.len() as int, sorted@, count_us, perm),
                sorted@.to_multiset().add(src@.to_multiset()) == src_items.to_multiset(),
            decreases src@.len(),
        {
            let ghost lo = src@.len() - 1;
            let ghost before_src = src@;
            let x = src.pop().unwrap();
            assert(x == src_items[lo]);
            assert(src@ == src_items.take(lo));
            assert(before_src == src@.push(x));
            // the first place whose packet is not less far ahead than `x`
            let key = x.packet.get_count_us().wrapping_sub(count_us);
            let mut pos: usize = 0;
            while pos < sorted.len() && sorted[pos].packet.get_count_us().wrapping_sub(count_us) < key
                invariant
                    pos <= sorted@.len(),
                    key == sort_key(x, count_us),
                    forall|k: int| 0 <= k < pos ==> sort_key(#[trigger] sorted@[k], count_us) < key,
                decreases sorted@.len() - pos,
            {
                pos += 1;
            }
            let ghost old_sorted = sorted@;
            let ghost old_perm = perm;
            proof {
                assert forall|k: int| pos <= k < old_sorted.len() implies sort_key(#[trigger] old_sorted[k], count_us) >= key by {
                    if pos < old_sorted.len() {
                        assert(sort_key(old_sorted[pos as int], count_us) >= key);
                        if k > pos {
                            assert(sort_key(old_sorted[pos as int], count_us) <= sort_key(old_sorted[k], count_us));
                        }
                    }
                }
            }
            sorted.insert(pos, x);
            proof {
                lemma_insert_keeps_sorted(src_items, lo, old_sorted, count_us, old_perm, pos as int);
                perm = old_perm.insert(pos as int, lo);
                assert(sorted@ == old_sorted.insert(pos as int, src_items[lo]));
                assert(sorted@.to_multiset() == old_sorted.to_multiset().insert(x));
                assert(before_src.to_multiset() == src@.to_multiset().insert(x));
                assert(sorted@.to_multiset().add(src@.to_multiset()) =~= old_sorted.to_multiset().add(
                    before_src.to_multiset(),
                ));
            }
        }
        self.items = sorted;
        proof {
            assert(src@ =~= Seq::<Item<T>>::empty());
            assert(src@.to_multiset() =~= vstd::multiset::Multiset::<Item<T>>::empty());
            assert(self.items@.to_multiset() =~= self.items@.to_multiset().add(src@.to_multiset()));
            assert(sorted_witness(src_items, 0, self.items@, count_us, perm));
            assert forall|i: int| 0 <= i < self.items@.len() implies (#[trigger] self.items@[i]).spec_pre_delay()
                == PRE_DELAY_US * 1000 by {
                assert(self.items@[i] == src_items[perm[i]]);
            }
        }
    }

    fn collision_test(&self, count_us: u32, pre_delay: Duration, post_delay: Duration) -> (b: bool)
        requires
            self.wf(),
            collision_sums_fit_with(self.spec_items(), micros(pre_delay), micros(post_delay)),
        ensures
            b == collides(self.spec_items(), count_us, micros(pre_delay), micros(post_delay)),
    {
        let pre_us = (as_micros(pre_delay) % 0x1_0000_0000) as u32;
        let post_us = (as_micros(post_delay) % 0x1_0000_0000) as u32;
        let margin = as_micros(self.tx_margin_delay) as u32;

        let mut i: usize = 0;
        while i < self.items.len()
            invariant
                self.wf(),
                margin == TX_MARGIN_DELAY_US,
                pre_us == counter_us(micros(pre_delay)),
                post_us == counter_us(micros(post_delay)),
                collision_sums_fit_with(self.items@, micros(pre_delay), micros(post_delay)),
                i <= self.items@.len(),
                forall|j: int|
                    0 <= j < i ==> !too_close(#[trigger] self.items@[j], count_us, micros(pre_delay), micros(post_delay)),
            decreases self.items@.len() - i,
        {
            let p2 = &self.items[i];
            let ghost it = self.items@[i as int];
            assert(counter_us(micros(pre_delay)) + counter_us(it.post_us()) + TX_MARGIN_DELAY_US <= u32::MAX);
            let p2_pre_delay = (as_micros(p2.pre_delay) % 0x1_0000_0000) as u32;
            let p2_post_delay = (as_micros(p2.post_delay) % 0x1_0000_0000) as u32;

            if count_us.wrapping_sub(p2.packet.get_count_us()) <= pre_us + p2_post_delay + margin
                || p2.packet.get_count_us().wrapping_sub(count_us) <= p2_pre_delay + post_us + margin {
                assert(too_close(self.items@[i as int], count_us, micros(pre_delay), micros(post_delay)));
                return true;
            }
            i += 1;
        }

        false
    }
}

/// A stable sort puts the packets in the order of how far ahead of `now` they are,
/// and holds the same packets: as many as before, each of them once.
pub proof fn lemma_stably_sorted_order<T: TxPacket>(src: Seq<Item<T>>, dst: Seq<Item<T>>, now: u32)
    requires
        stably_sorted(src, dst, now),
    ensures
        dst.len() == src.len(),
        forall|a: int, b: int| 0 <= a < b < dst.len() ==> sort_key(#[trigger] dst[a], now) <= sort_key(#[trigger] dst[b], now),
        forall|k: int| 0 <= k < dst.len() ==> src.contains(#[trigger] dst[k]),
{
    let perm = choose|perm: Seq<int>| sorted_witness(src, 0, dst, now, perm);
    assert forall|k: int| 0 <= k < dst.len() implies src.contains(#[trigger] dst[k]) by {
        assert(dst[k] == src[perm[k]]);
    }
}

/// Inserting `src[lo - 1]` into a stable sort of `src[lo..]`, before the first
/// packet that is at least as far ahead, gives a stable sort of `src[lo - 1..]`.
pub proof fn lemma_insert_keeps_sorted<T: TxPacket>(
    src: Seq<Item<T>>,
    lo: int,
    dst: Seq<Item<T>>,
    now: u32,
    perm: Seq<int>,
    pos: int,
)
    requires
        0 <= lo < src.len(),
        sorted_witness(src, lo + 1, dst, now, perm),
        0 <= pos <= dst.len(),
        forall|k: int| 0 <= k < pos ==> sort_key(#[trigger] dst[k], now) < sort_key(src[lo], now),
        forall|k: int| pos <= k < dst.len() ==> sort_key(#[trigger] dst[k], now) >= sort_key(src[lo], now),
    ensures
        sorted_witness(src, lo, dst.insert(pos, src[lo]), now, perm.insert(pos, lo)),
{
    let x = src[lo];
    let d = dst.insert(pos, x);
    let p = perm.insert(pos, lo);
    assert forall|k: int| 0 <= k < d.len() implies lo <= #[trigger] p[k] < src.len() && d[k] == src[p[k]] by {
        if k > pos {
            assert(p[k] == perm[k - 1]);
            assert(d[k] == dst[k - 1]);
        }
    }
    assert forall|a: int, b: int| 0 <= a < b < d.len() implies #[trigger] p[a] != #[trigger] p[b] by {
        if a != pos && b != pos {
            let a0 = if a < pos { a } else { a - 1 };
            let b0 = if b < pos { b } else { b - 1 };
            assert(p[a] == perm[a0]);
            assert(p[b] == perm[b0]);
            assert(perm[a0] != perm[b0]);
        } else if a == pos {
            assert(p[b] == perm[b - 1]);
            assert(lo < perm[b - 1]);
        } else {
            assert(p[a] == perm[a]);
            assert(lo < perm[a]);
        }
    }
    assert forall|a: int, b: int| 0 <= a < b < d.len() implies sort_key(#[trigger] d[a], now) <= sort_key(
        #[trigger] d[b],
        now,
    ) by {
        if a != pos && b != pos {
            let a0 = if a < pos { a } else { a - 1 };
            let b0 = if b < pos { b } else { b - 1 };
            assert(d[a] == dst[a0]);
            assert(d[b] == dst[b0]);
            assert(sort_key(dst[a0], now) <= sort_key(dst[b0], now));
        } else if a == pos {
            assert(d[b] == dst[b - 1]);
        } else {
            assert(d[a] == dst[a]);
        }
    }
    assert forall|a: int, b: int|
        0 <= a < b < d.len() && sort_key(#[trigger] d[a], now) == sort_key(#[trigger] d[b], now) implies p[a]
        < p[b] by {
        if a != pos && b != pos {
            let a0 = if a < pos { a } else { a - 1 };
            let b0 = if b < pos { b } else { b - 1 };
            assert(d[a] == dst[a0]);
            assert(d[b] == dst[b0]);
            assert(p[a] == perm[a0]);
            assert(p[b] == perm[b0]);
            assert(sort_key(dst[a0], now) == sort_key(dst[b0], now));
        } else if a == pos {
            assert(p[b] == perm[b - 1]);
            assert(lo < perm[b - 1]);
        } else {
            assert(d[a] == dst[a]);
        }
    }
}

/// Scanning the slots after `items[k]`, `items[k + 1]`, ...: when every slot before
/// `items[i]` collides and the one after `items[i]` is free (or `items[i]` is the
/// last item), the scan ends at the slot after `items[i]`.
pub proof fn lemma_scan_slots_ends_at<T: TxPacket>(items: Seq<Item<T>>, k: int, i: int, pre: int, post: int)
    requires
        0 <= k <= i < items.len(),
        forall|j: int| k <= j < i ==> collides(items, #[trigger] slot_after(items, j, pre), pre, post),
        i == items.len() - 1 || !collides(items, slot_after(items, i, pre), pre, post),
    ensures
        scan_slots(items, k, pre, post) == slot_after(items, i, pre),
    decreases i - k,
{
    if k < i {
        assert(collides(items, slot_after(items, k, pre), pre, post));
        lemma_scan_slots_ends_at(items, k + 1, i, pre, post);
    }
}


/// A refused enqueue leaves the queue as it was; an accepted one keeps every queued
/// entry and adds exactly one, for a packet with the given packet's time on air.
pub proof fn lemma_enqueue_keeps_packets<T: TxPacket>(
    items: Seq<Item<T>>,
    capacity: nat,
    now: u32,
    packet: T,
    r: Result<(), EnqueueError>,
    new_items: Seq<Item<T>>,
)
    requires
        enqueue_outcome(items, capacity, now, packet, r, new_items),
    ensures
        r is Err ==> new_items == items,
        r is Ok ==> new_items.len() == items.len() + 1 && exists|item: Item<T>|
            #[trigger] items.to_multiset().insert(item) == new_items.to_multiset()
                && item.spec_packet().spec_time_on_air() == packet.spec_time_on_air(),
{
    if r is Ok && packet.spec_time_on_air() is Ok {
        let time_on_air = packet.spec_time_on_air()->Ok_0;
        let slot = slot_for(items, now, packet, micros(time_on_air))->Ok_0;
        let item = choose|item: Item<T>|
            {
                &&& #[trigger] scheduled_item(item, packet, time_on_air, slot)
                &&& stably_sorted(items.push(item), new_items, now)
                &&& new_items.to_multiset() == items.push(item).to_multiset()
            };
        assert(items.push(item).to_multiset() == items.to_multiset().insert(item));
        assert(new_items.to_multiset().len() == new_items.len());
        assert(items.push(item).to_multiset().len() == items.push(item).len());
        assert(items.to_multiset().insert(item) == new_items.to_multiset());
    }
}


/// An accepted timestamped packet keeps clear of every queued packet on the
/// counter: it starts more than the queued packet's pre-delay, time on air and the
/// margin after the queued packet's start, or its own time on air, the queued
/// packet's pre-delay and the margin end before the queued packet starts (times on
/// air taken, as the counter takes them, modulo 2^32 µs).
pub proof fn lemma_accepted_timestamped_keeps_clear<T: TxPacket>(
    items: Seq<Item<T>>,
    capacity: nat,
    now: u32,
    packet: T,
    new_items: Seq<Item<T>>,
)
    requires
        enqueue_outcome(items, capacity, now, packet, Ok(()), new_items),
        packet.spec_tx_mode() == TxMode::Timestamped,
    ensures
        packet.spec_time_on_air() is Ok,
        forall|i: int|
            0 <= i < items.len() ==> {
                let q = #[trigger] items[i];
                let own = micros(packet.spec_time_on_air()->Ok_0) % 0x1_0000_0000;
                &&& packet.spec_count_us().wrapping_sub(q.spec_packet().spec_count_us()) > PRE_DELAY_US + (
                q.post_us() % 0x1_0000_0000) + TX_MARGIN_DELAY_US
                &&& q.spec_packet().spec_count_us().wrapping_sub(packet.spec_count_us()) > (q.pre_us()
                    % 0x1_0000_0000) + own + TX_MARGIN_DELAY_US
            },
{
    let d = packet.spec_time_on_air()->Ok_0;
    assert(!collides(items, packet.spec_count_us(), PRE_DELAY_US as int, micros(d)));
    assert forall|i: int| 0 <= i < items.len() implies {
        let q = #[trigger] items[i];
        let own = micros(packet.spec_time_on_air()->Ok_0) % 0x1_0000_0000;
        &&& packet.spec_count_us().wrapping_sub(q.spec_packet().spec_count_us()) > PRE_DELAY_US + (q.post_us()
            % 0x1_0000_0000) + TX_MARGIN_DELAY_US
        &&& q.spec_packet().spec_count_us().wrapping_sub(packet.spec_count_us()) > (q.pre_us() % 0x1_0000_0000)
            + own + TX_MARGIN_DELAY_US
    } by {
        assert(!too_close(items[i], packet.spec_count_us(), PRE_DELAY_US as int, micros(d)));
    }
}


/// Where a packet is scheduled: never less than 32.5 ms (start, margin and
/// just-in-time delays) nor more than 512 s ahead of now on the counter; a
/// timestamped packet at its own counter value; and an immediate packet, when
/// nothing is queued, one second from now.
pub proof fn lemma_slot_lead_time<T: TxPacket>(items: Seq<Item<T>>, now: u32, packet: T, post: int)
    ensures
        slot_for(items, now, packet, post) matches Ok(slot) ==> 32_500 <= slot.wrapping_sub(now) <= 512_000_000,
        packet.spec_tx_mode() != TxMode::Immediate ==> (slot_for(items, now, packet, post) matches Ok(slot)
            ==> slot == packet.spec_count_us()),
        packet.spec_tx_mode() == TxMode::Immediate && items.len() == 0 ==> slot_for(items, now, packet, post)
            == Ok::<u32, EnqueueError>(now.wrapping_add(1_000_000)),
{
    let base = now.wrapping_add(1_000_000);
    assert(base.wrapping_sub(now) == 1_000_000) by (bit_vector)
        requires
            base == now.wrapping_add(1_000_000),
    ;
}

} // verus!
