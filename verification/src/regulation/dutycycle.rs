//! Duty-cycle tracking: how much transmission time falls in a sliding window.
use std::time::Duration;
use vstd::prelude::*;

use crate::error::ConcentratorError;
use crate::time::{as_nanos, from_nanos_u128, nanos, MAX_DURATION_NANOS};

verus! {

broadcast use vstd::seq_lib::group_seq_properties;

#[derive(PartialEq, Eq, Debug, Clone)]
pub struct Item {
    pub start_time: Duration,
    pub end_time: Duration,
}

/// How much of the item from `item_start` to `item_end` the tracker counts in the
/// period from `start` to `end`: nothing when the item lies before or after the
/// period; when the period starts inside the item, the item from the period's start
/// up to whichever ends first (nothing for a period that ends before it starts);
/// when the period ends inside the item, the item up to the period's end; and
/// otherwise the whole item.
pub open spec fn overlap(item_start: int, item_end: int, start: int, end: int) -> int {
    if start >= item_end || end <= item_start {
        0
    } else if start > item_start {
        let until = if end < item_end { end } else { item_end };
        if until > start { until - start } else { 0 }
    } else if end < item_end {
        end - item_start
    } else {
        item_end - item_start
    }
}

impl Item {
    /// The item starts no later than it ends.
    pub open spec fn wf(&self) -> bool {
        nanos(self.start_time) <= nanos(self.end_time)
    }

    /// The length of the item, in nanoseconds.
    pub open spec fn spec_duration(&self) -> int {
        nanos(self.end_time) - nanos(self.start_time)
    }

    /// How much of the item the period from `start` to `end` (nanoseconds) counts.
    pub open spec fn spec_overlap(&self, start: int, end: int) -> int {
        overlap(nanos(self.start_time), nanos(self.end_time), start, end)
    }

    /// What the item counts in the period from `start` to `end` (nanoseconds) can be
    /// computed: the item starts no later than it ends, or it lies wholly before or
    /// after the period.
    pub open spec fn overlap_defined(&self, start: int, end: int) -> bool {
        self.wf() || start >= nanos(self.end_time) || end <= nanos(self.start_time)
    }

    /// This returns the duration of the item.
    pub fn duration(&self) -> (d: Duration)
        requires
            self.wf(),
        ensures
            nanos(d) == self.spec_duration(),
    {
        from_nanos_u128(as_nanos(self.end_time) - as_nanos(self.start_time))
    }

    /// This returns how much time the item overlaps with the given start and end time.
    /// E.g. this could overlap:
    ///   - zero: if there is no overlap (the item is in the past or future)
    ///   - partial item duration: if there is a partial overlap
    ///   - full item duration: if there is a full overlap
    pub fn overlapping_duration(&self, start_time: Duration, end_time: Duration) -> (d: Duration)
        requires
            self.overlap_defined(nanos(start_time), nanos(end_time)),
        ensures
            nanos(d) == self.spec_overlap(nanos(start_time), nanos(end_time)),
    {
        let start = as_nanos(start_time);
        let end = as_nanos(end_time);
        let item_start = as_nanos(self.start_time);
        let item_end = as_nanos(self.end_time);
        if start >= item_end || end <= item_start {
            // start_time is after the item ended
            // end time is before the item will start
            from_nanos_u128(0)
        } else if start > item_start {
            // Start time is after item start time, return partial
            let until = if end < item_end { end } else { item_end };
            if until > start {
                from_nanos_u128(until - start)
            } else {
                from_nanos_u128(0)
            }
        } else if end < item_end {
            // End time is before item end time, return partial
            from_nanos_u128(end - item_start)
        } else {
            self.duration()
        }
    }
}

/// What an item counts in a period is the length of the intersection of the item
/// and the period: never negative, and never more than the item or the period.
pub proof fn lemma_overlap_bounds(item_start: int, item_end: int, start: int, end: int)
    requires
        item_start <= item_end,
        start <= end,
    ensures
        0 <= overlap(item_start, item_end, start, end) <= item_end - item_start,
        overlap(item_start, item_end, start, end) <= end - start,
        overlap(item_start, item_end, start, end) == {
            let lo = if start > item_start { start } else { item_start };
            let hi = if end < item_end { end } else { item_end };
            if hi > lo { hi - lo } else { 0 }
        },
{
}

/// The total that the items count in the period from `start` to `end`.
pub open spec fn tracked_sum(items: Seq<Item>, start: int, end: int) -> int
    decreases items.len(),
{
    if items.len() == 0 {
        0
    } else {
        tracked_sum(items.drop_last(), start, end) + items.last().spec_overlap(start, end)
    }
}

/// The start of the window of length `window` that ends at `time` (not before zero).
pub open spec fn window_start(time: int, window: int) -> int {
    if time >= window {
        time - window
    } else {
        0
    }
}

/// The items that a cleanup at `time` keeps, in their order: those that count
/// something in the period from one window before `time` to one window after it.
pub open spec fn kept_items(items: Seq<Item>, time: int, window: int) -> Seq<Item> {
    items.filter(|i: Item| i.spec_overlap(window_start(time, window), time + window) != 0)
}

/// All items start no later than they end.
pub open spec fn items_wf(items: Seq<Item>) -> bool {
    forall|i: int| 0 <= i < items.len() ==> #[trigger] items[i].wf()
}

/// What every item counts in the period from `start` to `end` can be computed.
pub open spec fn items_defined(items: Seq<Item>, start: int, end: int) -> bool {
    forall|i: int| 0 <= i < items.len() ==> #[trigger] items[i].overlap_defined(start, end)
}

/// Well-formed items can be counted in every period.
pub proof fn lemma_wf_items_defined(items: Seq<Item>, start: int, end: int)
    requires
        items_wf(items),
    ensures
        items_defined(items, start, end),
{
    assert forall|i: int| 0 <= i < items.len() implies #[trigger] items[i].overlap_defined(start, end) by {
        assert(items[i].wf());
    }
}

/// An item that can be counted but does not start before it ends counts nothing.
pub proof fn lemma_overlap_of_defined(it: Item, start: int, end: int)
    requires
        it.overlap_defined(start, end),
        start <= end,
    ensures
        0 <= it.spec_overlap(start, end),
        it.wf() ==> it.spec_overlap(start, end) <= it.spec_duration(),
        !it.wf() ==> it.spec_overlap(start, end) == 0,
{
    if it.wf() {
        lemma_overlap_bounds(nanos(it.start_time), nanos(it.end_time), start, end);
    }
}

/// The total counted by items that can be counted is never negative.
pub proof fn lemma_tracked_sum_nonneg(items: Seq<Item>, start: int, end: int)
    requires
        items_defined(items, start, end),
        start <= end,
    ensures
        tracked_sum(items, start, end) >= 0,
    decreases items.len(),
{
    if items.len() > 0 {
        assert(items.last() == items[items.len() - 1]);
        assert(items[items.len() - 1].overlap_defined(start, end));
        assert(items_defined(items.drop_last(), start, end)) by {
            assert forall|i: int| 0 <= i < items.drop_last().len() implies #[trigger] items.drop_last()[i].overlap_defined(start, end) by {
                assert(items.drop_last()[i] == items[i]);
            }
        }
        lemma_tracked_sum_nonneg(items.drop_last(), start, end);
        lemma_overlap_of_defined(items.last(), start, end);
    }
}

pub struct Tracker {
    enforce: bool,
    window: Duration,
    max_duration: Duration,
    items: Vec<Item>,
}

impl Tracker {
    /// Whether the tracker refuses items that would exceed the maximum duration.
    pub closed spec fn spec_enforce(&self) -> bool {
        self.enforce
    }

    /// The length of the sliding window, in nanoseconds.
    pub closed spec fn spec_window(&self) -> int {
        nanos(self.window)
    }

    /// The maximum transmission time within a window, in nanoseconds.
    pub closed spec fn spec_max_duration(&self) -> int {
        nanos(self.max_duration)
    }

    /// The tracked items, in the order of insertion.
    pub closed spec fn spec_items(&self) -> Seq<Item> {
        self.items@
    }

    /// The tracker's invariant: an enforcing tracker only tracks items that start no
    /// later than they end.
    pub open spec fn wf(&self) -> bool {
        self.spec_enforce() ==> items_wf(self.spec_items())
    }

    /// What every tracked item counts in the window that ends at `time` can be
    /// computed.
    pub open spec fn tracked_defined(&self, time: int) -> bool {
        items_defined(self.spec_items(), window_start(time, self.spec_window()), time)
    }

    /// The transmission time that the tracker counts in the window that ends at `time`.
    pub open spec fn spec_tracked(&self, time: int) -> int {
        tracked_sum(self.spec_items(), window_start(time, self.spec_window()), time)
    }

    /// Whether the tracker accepts `item`, and if not, why.
    pub open spec fn verdict(&self, item: Item) -> Result<(), ConcentratorError> {
        if !self.spec_enforce() {
            Ok(())
        } else if self.spec_tracked(nanos(item.end_time)) + item.spec_duration() > self.spec_max_duration() {
            Err(ConcentratorError::DutyCycle)
        } else if exists|j: int|
            0 <= j < self.spec_items().len() && #[trigger] nanos(self.spec_items()[j].start_time) > nanos(item.start_time)
                && self.spec_tracked(nanos(self.spec_items()[j].end_time)) + item.spec_duration()
                > self.spec_max_duration() {
            Err(ConcentratorError::DutyCycleFutureItems)
        } else {
            Ok(())
        }
    }

    /// The sums that `try_insert` forms for `item` stay within the range of `Duration`.
    pub open spec fn insert_in_range(&self, item: Item) -> bool {
        self.spec_enforce() ==> {
            &&& self.spec_tracked(nanos(item.end_time)) + item.spec_duration() <= MAX_DURATION_NANOS
            &&& forall|j: int|
                0 <= j < self.spec_items().len() && nanos(self.spec_items()[j].start_time) > nanos(
                    item.start_time,
                ) ==> self.spec_tracked(nanos(#[trigger] self.spec_items()[j].end_time))
                    + item.spec_duration() <= MAX_DURATION_NANOS
        }
    }

    pub fn new(window: Duration, max_duration: Duration, enforce: bool) -> (t: Tracker)
        ensures
            t.wf(),
            t.spec_enforce() == enforce,
            t.spec_window() == nanos(window),
            t.spec_max_duration() == nanos(max_duration),
            t.spec_items().len() == 0,
    {
        Tracker { enforce, window, max_duration, items: Vec::new() }
    }

    /// A tracker that already tracks `items`.
    pub fn with_items(window: Duration, max_duration: Duration, enforce: bool, items: Vec<Item>) -> (t: Tracker)
        requires
            enforce ==> items_wf(items@),
        ensures
            t.wf(),
            t.spec_enforce() == enforce,
            t.spec_window() == nanos(window),
            t.spec_max_duration() == nanos(max_duration),
            t.spec_items() == items@,
    {
        Tracker { enforce, window, max_duration, items }
    }

    /// The tracked items, in the order of insertion.
    pub fn items(&self) -> (r: &Vec<Item>)
        ensures
            r@ == self.spec_items(),
    {
        &self.items
    }

    /// This cleans up all items of which the start_time and end_time do not overlap
    /// with the given cur_time +/- the configured window for this tracker.
    pub fn cleanup(&mut self, cur_time: Duration)
        requires
            old(self).wf(),
            nanos(cur_time) + old(self).spec_window() <= MAX_DURATION_NANOS,
            items_defined(
                old(self).spec_items(),
                window_start(nanos(cur_time), old(self).spec_window()),
                nanos(cur_time) + old(self).spec_window(),
            ),
        ensures
            final(self).wf(),
            items_wf(final(self).spec_items()),
            final(self).spec_enforce() == old(self).spec_enforce(),
            final(self).spec_window() == old(self).spec_window(),
            final(self).spec_max_duration() == old(self).spec_max_duration(),
            final(self).spec_items() == kept_items(old(self).spec_items(), nanos(cur_time), old(self).spec_window()),
    {
        let window = as_nanos(self.window);
        let cur = as_nanos(cur_time);
        let start = if cur >= window { cur - window } else { 0 };
        let start_time = from_nanos_u128(start);
        let end_time = from_nanos_u128(cur + window);
        let ghost w = nanos(self.window);
        let ghost c = nanos(cur_time);
        let ghost pred = |i: Item| i.spec_overlap(window_start(c, w), c + w) != 0;
        let ghost items = self.items@;
        let mut kept: Vec<Item> = Vec::new();
        let mut i: usize = 0;
        while i < self.items.len()
            invariant
                self.items@ == items,
                *self == *old(self),
                w == nanos(self.window),
                c == nanos(cur_time),
                pred == (|i: Item| i.spec_overlap(window_start(c, w), c + w) != 0),
                items_defined(items, window_start(c, w), c + w),
                i <= items.len(),
                nanos(start_time) == window_start(nanos(cur_time), nanos(self.window)),
                nanos(end_time) == nanos(cur_time) + nanos(self.window),
                kept@ == items.take(i as int).filter(pred),
                items_wf(kept@),
            decreases items.len() - i,
        {
            assert(items[i as int].overlap_defined(window_start(c, w), c + w));
            let d = self.items[i].overlapping_duration(start_time, end_time);
            let it = &self.items[i];
            proof {
                lemma_overlap_of_defined(items[i as int], window_start(c, w), c + w);
            }
            proof {
                assert(items.take(i + 1) == items.take(i as int).push(items[i as int]));
                items.take(i as int).lemma_filter_push(items[i as int], pred);
            }
            assert(pred(items[i as int]) == (nanos(d) != 0));
            if as_nanos(d) != 0 {
                let copy = Item { start_time: it.start_time, end_time: it.end_time };
                assert(copy == items[i as int]);
                kept.push(copy);
            }
            i += 1;
        }
        assert(items.take(items.len() as int) == items);
        self.items = kept;
    }

    /// This returns the tracked duration at the given time.
    pub fn tracked_duration(&self, cur_time: Duration) -> (d: Duration)
        requires
            self.tracked_defined(nanos(cur_time)),
            self.spec_tracked(nanos(cur_time)) <= MAX_DURATION_NANOS,
        ensures
            nanos(d) == self.spec_tracked(nanos(cur_time)),
    {
        from_nanos_u128(self.tracked_nanos(cur_time))
    }

    fn tracked_nanos(&self, cur_time: Duration) -> (n: u128)
        requires
            self.tracked_defined(nanos(cur_time)),
            self.spec_tracked(nanos(cur_time)) <= MAX_DURATION_NANOS,
        ensures
            n == self.spec_tracked(nanos(cur_time)),
    {
        let window = as_nanos(self.window);
        let cur = as_nanos(cur_time);
        let start = if cur >= window { cur - window } else { 0 };
        let start_time = from_nanos_u128(start);
        let ghost items = self.items@;
        let ghost ws = window_start(nanos(cur_time), nanos(self.window));
        let mut sum: u128 = 0;
        let mut i: usize = 0;
        proof {
            lemma_tracked_sum_prefix_le(items, items.len() as int, ws, nanos(cur_time));
        }
        while i < self.items.len()
            invariant
                self.items@ == items,
                items_defined(items, ws, nanos(cur_time)),
                i <= items.len(),
                nanos(start_time) == ws,
                ws <= nanos(cur_time),
                tracked_sum(items, ws, nanos(cur_time)) <= MAX_DURATION_NANOS,
                sum == tracked_sum(items.take(i as int), ws, nanos(cur_time)),
            decreases items.len() - i,
        {
            assert(items[i as int].overlap_defined(ws, nanos(cur_time)));
            let d = self.items[i].overlapping_duration(start_time, cur_time);
            proof {
                assert(items.take(i + 1).drop_last() == items.take(i as int));
                assert(items.take(i + 1).last() == items[i as int]);
                lemma_tracked_sum_prefix_le(items, i + 1, ws, nanos(cur_time));
            }
            sum = sum + as_nanos(d);
            i += 1;
        }
        assert(items.take(items.len() as int) == items);
        sum
    }

    // Try insert the given item. It returns an error in the following case:
    // - If by inserting the item the max_duration would be exceeded
    // - If by inserting the item, it would make already tracked items exceed
    //   the max_duration.
    pub fn try_insert(&mut self, item: Item) -> (r: Result<(), ConcentratorError>)
        requires
            old(self).wf(),
            old(self).spec_enforce() ==> item.wf(),
            old(self).insert_in_range(item),
        ensures
            final(self).wf(),
            final(self).spec_enforce() == old(self).spec_enforce(),
            final(self).spec_window() == old(self).spec_window(),
            final(self).spec_max_duration() == old(self).spec_max_duration(),
            match old(self).verdict(item) {
                Ok(_) => r is Ok && final(self).spec_items() == old(self).spec_items().push(item),
                Err(ConcentratorError::DutyCycle) => r matches Err(ConcentratorError::DutyCycle) && *final(self) == *old(self),
                Err(_) => r matches Err(ConcentratorError::DutyCycleFutureItems) && *final(self) == *old(self),
            },
    {
        if !self.enforce {
            self.items.push(item);
            return Ok(());
        }

        let duration = as_nanos(item.duration());
        let max_duration = as_nanos(self.max_duration);
        proof {
            lemma_wf_items_defined(self.spec_items(), window_start(nanos(item.end_time), self.spec_window()), nanos(item.end_time));
        }
        let spent = self.tracked_nanos(item.end_time);
        if spent + duration > max_duration {
            return Err(ConcentratorError::DutyCycle);
        }

        let ghost items = self.items@;
        let mut i: usize = 0;
        while i < self.items.len()
            invariant
                self.items@ == items,
                *self == *old(self),
                self.wf(),
                item.wf(),
                self.enforce,
                self.insert_in_range(item),
                duration == item.spec_duration(),
                max_duration == self.spec_max_duration(),
                self.spec_tracked(nanos(item.end_time)) + item.spec_duration() <= self.spec_max_duration(),
                i <= items.len(),
                forall|j: int|
                    0 <= j < i && nanos(items[j].start_time) > nanos(item.start_time) ==> self.spec_tracked(
                        nanos(#[trigger] items[j].end_time),
                    ) + item.spec_duration() <= self.spec_max_duration(),
            decreases items.len() - i,
        {
            let fut_item = &self.items[i];
            if as_nanos(fut_item.start_time) > as_nanos(item.start_time) {
                proof {
                    lemma_wf_items_defined(self.spec_items(), window_start(nanos(fut_item.end_time), self.spec_window()), nanos(fut_item.end_time));
                }
                let spent = self.tracked_nanos(fut_item.end_time);
                if spent + duration > max_duration {
                    assert(nanos(self.spec_items()[i as int].start_time) > nanos(item.start_time)
                        && self.spec_tracked(nanos(self.spec_items()[i as int].end_time)) + item.spec_duration()
                        > self.spec_max_duration());
                    assert(old(self).verdict(item) matches Err(ConcentratorError::DutyCycleFutureItems));
                    return Err(ConcentratorError::DutyCycleFutureItems);
                }
            }
            i += 1;
        }

        self.items.push(item);

        Ok(())
    }
}

/// An accepted item keeps the duty cycle: when an enforcing tracker accepts an item,
/// the time tracked in the window that ends with the item, the item included, is at
/// most the maximum, and so is the time tracked, the item included, in the window
/// that ends with any tracked item that starts later than it.
pub proof fn lemma_accepted_item_within_maximum(t: Tracker, item: Item)
    requires
        t.wf(),
        item.wf(),
        t.spec_enforce(),
        t.verdict(item) is Ok,
    ensures
        tracked_sum(
            t.spec_items().push(item),
            window_start(nanos(item.end_time), t.spec_window()),
            nanos(item.end_time),
        ) <= t.spec_max_duration(),
        forall|j: int|
            0 <= j < t.spec_items().len() && nanos(t.spec_items()[j].start_time) > nanos(item.start_time) ==> {
                let end = nanos((#[trigger] t.spec_items()[j]).end_time);
                tracked_sum(t.spec_items().push(item), window_start(end, t.spec_window()), end)
                    <= t.spec_max_duration()
            },
{
    let end = nanos(item.end_time);
    let start = window_start(end, t.spec_window());
    let items = t.spec_items().push(item);
    assert(items.drop_last() == t.spec_items());
    lemma_overlap_bounds(nanos(item.start_time), end, start, end);
    assert forall|j: int|
        0 <= j < t.spec_items().len() && nanos(t.spec_items()[j].start_time) > nanos(item.start_time) implies {
            let end = nanos((#[trigger] t.spec_items()[j]).end_time);
            tracked_sum(t.spec_items().push(item), window_start(end, t.spec_window()), end)
                <= t.spec_max_duration()
        } by {
        let f_end = nanos(t.spec_items()[j].end_time);
        let f_start = window_start(f_end, t.spec_window());
        assert(t.spec_tracked(f_end) + item.spec_duration() <= t.spec_max_duration());
        lemma_overlap_bounds(nanos(item.start_time), end, f_start, f_end);
    }
}

/// The sum over a prefix of well-formed items is at most the sum over all of them.
pub proof fn lemma_tracked_sum_prefix_le(items: Seq<Item>, n: int, start: int, end: int)
    requires
        items_defined(items, start, end),
        0 <= n <= items.len(),
        start <= end,
    ensures
        0 <= tracked_sum(items.take(n), start, end) <= tracked_sum(items, start, end),
    decreases items.len(),
{
    assert(items_defined(items.take(n), start, end)) by {
        assert forall|i: int| 0 <= i < items.take(n).len() implies #[trigger] items.take(n)[i].overlap_defined(start, end) by {
            assert(items.take(n)[i] == items[i]);
        }
    }
    lemma_tracked_sum_nonneg(items.take(n), start, end);
    if n < items.len() {
        let last = items.last();
        assert(last == items[items.len() - 1]);
        assert(items[items.len() - 1].overlap_defined(start, end));
        lemma_overlap_of_defined(last, start, end);
        assert(items_defined(items.drop_last(), start, end)) by {
            assert forall|i: int| 0 <= i < items.drop_last().len() implies #[trigger] items.drop_last()[i].overlap_defined(start, end) by {
                assert(items.drop_last()[i] == items[i]);
            }
        }
        assert(items.drop_last().take(n) == items.take(n));
        lemma_tracked_sum_prefix_le(items.drop_last(), n, start, end);
    } else {
        assert(items.take(n) == items);
    }
}


/// Cleanup forgets only what no longer counts: after a cleanup at `cur`, the time
/// tracked in every window that ends between `cur` and one window after it is what
/// it was before.
pub proof fn lemma_cleanup_keeps_tracked(t: Tracker, cur: int, q: int)
    requires
        t.wf(),
        0 <= cur <= q <= cur + t.spec_window(),
        items_defined(t.spec_items(), window_start(cur, t.spec_window()), cur + t.spec_window()),
    ensures
        tracked_sum(kept_items(t.spec_items(), cur, t.spec_window()), window_start(q, t.spec_window()), q)
            == t.spec_tracked(q),
{
    lemma_kept_items_tracked(t.spec_items(), cur, t.spec_window(), q);
}

/// The items that a cleanup at `cur` drops count nothing in a window that ends
/// between `cur` and one window after it.
proof fn lemma_kept_items_tracked(items: Seq<Item>, cur: int, w: int, q: int)
    requires
        items_defined(items, window_start(cur, w), cur + w),
        0 <= cur <= q <= cur + w,
    ensures
        tracked_sum(kept_items(items, cur, w), window_start(q, w), q) == tracked_sum(items, window_start(q, w), q),
    decreases items.len(),
{
    if items.len() > 0 {
        let pred = |i: Item| i.spec_overlap(window_start(cur, w), cur + w) != 0;
        let init = items.drop_last();
        let last = items.last();
        assert(items == init.push(last));
        assert(last == items[items.len() - 1]);
        assert(items[items.len() - 1].overlap_defined(window_start(cur, w), cur + w));
        assert(items_defined(init, window_start(cur, w), cur + w)) by {
            assert forall|i: int| 0 <= i < init.len() implies #[trigger] init[i].overlap_defined(window_start(cur, w), cur + w) by {
                assert(init[i] == items[i]);
            }
        }
        init.lemma_filter_push(last, pred);
        lemma_kept_items_tracked(init, cur, w, q);
        let s = nanos(last.start_time);
        let e = nanos(last.end_time);
        if last.wf() {
            lemma_overlap_bounds(s, e, window_start(cur, w), cur + w);
            lemma_overlap_bounds(s, e, window_start(q, w), q);
        }
        if !pred(last) {
            assert(last.spec_overlap(window_start(q, w), q) == 0);
        } else {
            assert(kept_items(items, cur, w) == kept_items(init, cur, w).push(last));
            assert(kept_items(items, cur, w).drop_last() == kept_items(init, cur, w));
        }
    }
}


/// A tracker refuses only for a reason: one that does not enforce takes every item;
/// `DutyCycle` means the item would take the time tracked in the window that ends
/// with it over the maximum; `DutyCycleFutureItems` means it would do so in the
/// window that ends with a tracked item that starts later than it.
pub proof fn lemma_refusal_reasons(t: Tracker, item: Item)
    ensures
        !t.spec_enforce() ==> t.verdict(item) is Ok,
        t.verdict(item) matches Err(ConcentratorError::DutyCycle) ==> t.spec_tracked(nanos(item.end_time))
            + item.spec_duration() > t.spec_max_duration(),
        t.verdict(item) matches Err(ConcentratorError::DutyCycleFutureItems) ==> exists|j: int|
            0 <= j < t.spec_items().len() && nanos(t.spec_items()[j].start_time) > nanos(item.start_time)
                && t.spec_tracked(nanos((#[trigger] t.spec_items()[j]).end_time)) + item.spec_duration()
                > t.spec_max_duration(),
        t.spec_enforce() && t.verdict(item) is Ok ==> t.spec_tracked(nanos(item.end_time)) + item.spec_duration()
            <= t.spec_max_duration(),
{
}

} // verus!
