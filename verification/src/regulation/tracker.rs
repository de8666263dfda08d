//! Duty-cycle tracking per band of a regulatory standard.
use std::collections::HashMap;
use std::time::Duration;
use vstd::prelude::*;

use super::dutycycle;
use super::dutycycle::{items_wf, kept_items, lemma_wf_items_defined, window_start, Item};
use super::standard::{first_band, lemma_first_band, Band, Configuration, Regulation};
use crate::error::ConcentratorError;
use crate::time::{as_nanos, from_nanos_u128, nanos, MAX_DURATION_NANOS};

verus! {

broadcast use vstd::std_specs::hash::group_hash_axioms;

/// The transmission time, in nanoseconds, that a band of `permille` per mille allows
/// within a window of `window` nanoseconds: the window divided by 1000 (rounded
/// down), times the per mille.
pub open spec fn band_max_nanos(window: int, permille: int) -> int {
    (window / 1000) * permille
}

/// The tracked time of each band that has a tracker, in the order of the bands, as
/// the pairs of the band and the time (nanoseconds) its tracker counts in the window
/// that ends at `time`.
pub open spec fn tracked_durations(
    bands: Seq<Band>,
    trackers: Seq<Option<dutycycle::Tracker>>,
    time: int,
) -> Seq<(Band, int)>
    decreases trackers.len(),
{
    if trackers.len() == 0 {
        Seq::empty()
    } else {
        let rest = tracked_durations(bands, trackers.drop_last(), time);
        match trackers.last() {
            Some(t) => rest.push((bands[trackers.len() - 1], t.spec_tracked(time))),
            None => rest,
        }
    }
}

pub struct Tracker {
    enforce: bool,
    config: Configuration,
    /// The tracker of each band that has one, by the band's position.
    trackers: HashMap<usize, dutycycle::Tracker>,
}

impl Tracker {
    /// Whether the trackers refuse items that exceed a band's duty cycle.
    pub closed spec fn spec_enforce(&self) -> bool {
        self.enforce
    }

    /// The regulatory configuration: its bands and its window.
    pub closed spec fn spec_config(&self) -> Configuration {
        self.config
    }

    /// The tracker of each band of the configuration, by the band's position; a band
    /// has one once an item was accepted for it.
    pub closed spec fn spec_trackers(&self) -> Seq<Option<dutycycle::Tracker>> {
        Seq::new(
            self.config.bands@.len(),
            |i: int|
                if self.trackers@.contains_key(i as usize) {
                    Some(self.trackers@[i as usize])
                } else {
                    None
                },
        )
    }

    /// The length of the window, in nanoseconds.
    pub open spec fn spec_window(&self) -> int {
        nanos(self.spec_config().window_time)
    }

    /// The transmission time that band `i` allows within one window, in nanoseconds.
    pub open spec fn band_max(&self, i: int) -> int {
        band_max_nanos(self.spec_window(), self.spec_config().bands@[i].duty_cycle_permille_max as int)
    }

    /// `t` is a fitting tracker for band `i`: tracking only items that start no later
    /// than they end, with the window of the configuration, the band's maximum and
    /// this tracker's enforcement.
    pub open spec fn fits(&self, t: dutycycle::Tracker, i: int) -> bool {
        &&& t.wf()
        &&& items_wf(t.spec_items())
        &&& t.spec_enforce() == self.spec_enforce()
        &&& t.spec_window() == self.spec_window()
        &&& t.spec_max_duration() == self.band_max(i)
    }

    /// Band `i` has no tracker, or a fitting one.
    pub open spec fn slot_wf(&self, i: int) -> bool {
        match self.spec_trackers()[i] {
            Some(t) => self.fits(t, i),
            None => true,
        }
    }

    /// There is one slot per band, and every tracker fits its band.
    pub open spec fn wf(&self) -> bool {
        &&& self.spec_trackers().len() == self.spec_config().bands@.len()
        &&& forall|i: int| 0 <= i < self.spec_trackers().len() ==> #[trigger] self.slot_wf(i)
    }

    /// The items tracked for band `i` (none while it has no tracker).
    pub open spec fn band_items(&self, i: int) -> Seq<Item> {
        match self.spec_trackers()[i] {
            Some(t) => t.spec_items(),
            None => Seq::empty(),
        }
    }

    /// Whether band `i` accepts `item`, and if not, why: its tracker decides; a band
    /// without one refuses only an item longer than the band allows in a window.
    pub open spec fn band_verdict(&self, i: int, item: Item) -> Result<(), ConcentratorError> {
        match self.spec_trackers()[i] {
            Some(t) => t.verdict(item),
            None => if self.spec_enforce() && item.spec_duration() > self.band_max(i) {
                Err(ConcentratorError::DutyCycle)
            } else {
                Ok(())
            },
        }
    }

    /// The sums that `try_insert` forms for `item` stay within the range of `Duration`.
    pub open spec fn insert_in_range(&self, tx_freq: u32, tx_power: i8, item: Item) -> bool {
        match first_band(self.spec_config().bands@, tx_freq, tx_power) {
            Some(i) => match self.spec_trackers()[i] {
                Some(t) => t.insert_in_range(item),
                None => self.band_max(i) <= MAX_DURATION_NANOS,
            },
            None => true,
        }
    }

    pub fn new(config: Configuration, enforce: bool) -> (t: Self)
        ensures
            t.wf(),
            t.spec_enforce() == enforce,
            t.spec_config() == config,
            forall|i: int| 0 <= i < t.spec_trackers().len() ==> #[trigger] t.spec_trackers()[i] is None,
    {
        let trackers: HashMap<usize, dutycycle::Tracker> = HashMap::new();
        let t = Tracker { config, enforce, trackers };
        assert forall|i: int| 0 <= i < t.spec_trackers().len() implies #[trigger] t.slot_wf(i) by {
            assert(t.spec_trackers()[i] is None);
        }
        t
    }

    /// Takes the tracker of band `i` out of its slot, leaving the slot empty.
    fn take_tracker(&mut self, i: usize) -> (t: Option<dutycycle::Tracker>)
        requires
            i < old(self).spec_trackers().len(),
        ensures
            t == old(self).spec_trackers()[i as int],
            final(self).spec_trackers() == old(self).spec_trackers().update(i as int, None),
            final(self).spec_config() == old(self).spec_config(),
            final(self).spec_enforce() == old(self).spec_enforce(),
    {
        let n = self.config.bands.len();
        let t = self.trackers.remove(&i);
        assert(self.trackers@ == old(self).trackers@.remove(i));
        assert forall|j: int| 0 <= j < self.spec_trackers().len() implies #[trigger] self.spec_trackers()[j]
            == old(self).spec_trackers().update(i as int, None)[j] by {
            assert(j < n);
            assert(j as usize == j);
            if j != i {
                assert((j as usize) != i);
            }
        }
        assert(self.spec_trackers() =~= old(self).spec_trackers().update(i as int, None));
        t
    }

    /// Puts `t` into the slot of band `i`.
    fn put_tracker(&mut self, i: usize, t: Option<dutycycle::Tracker>)
        requires
            i < old(self).spec_trackers().len(),
        ensures
            final(self).spec_trackers() == old(self).spec_trackers().update(i as int, t),
            final(self).spec_config() == old(self).spec_config(),
            final(self).spec_enforce() == old(self).spec_enforce(),
    {
        let n = self.config.bands.len();
        match t {
            Some(x) => {
                self.trackers.insert(i, x);
                assert(self.trackers@ == old(self).trackers@.insert(i, x));
            },
            None => {
                self.trackers.remove(&i);
                assert(self.trackers@ == old(self).trackers@.remove(i));
            },
        }
        assert forall|j: int| 0 <= j < self.spec_trackers().len() implies #[trigger] self.spec_trackers()[j]
            == old(self).spec_trackers().update(i as int, t)[j] by {
            assert(j < n);
            assert(j as usize == j);
            if j != i {
                assert((j as usize) != i);
            }
        }
        assert(self.spec_trackers() =~= old(self).spec_trackers().update(i as int, t));
    }

    /// The duty-cycle tracker for band `i`, made when the band gets its first item.
    fn band_tracker(&self, i: usize) -> (t: dutycycle::Tracker)
        requires
            i < self.spec_config().bands@.len(),
            self.band_max(i as int) <= MAX_DURATION_NANOS,
        ensures
            self.fits(t, i as int),
            t.spec_items().len() == 0,
    {
        let window = as_nanos(self.config.window_time);
        let permille = self.config.bands[i].duty_cycle_permille_max;
        assert((window / 1000) * (permille as int) <= MAX_DURATION_NANOS * 4_294_967_295) by (nonlinear_arith)
            requires
                window / 1000 <= MAX_DURATION_NANOS,
                permille <= 4_294_967_295u32,
        ;
        let max = (window / 1000) * (permille as u128);
        dutycycle::Tracker::new(self.config.window_time, from_nanos_u128(max), self.enforce)
    }

    pub fn try_insert(&mut self, tx_freq: u32, tx_power: i8, item: Item) -> (r: Result<(), ConcentratorError>)
        requires
            old(self).wf(),
            item.wf(),
            old(self).insert_in_range(tx_freq, tx_power, item),
        ensures
            final(self).wf(),
            final(self).spec_enforce() == old(self).spec_enforce(),
            final(self).spec_config() == old(self).spec_config(),
            match first_band(old(self).spec_config().bands@, tx_freq, tx_power) {
                None => {
                    &&& r matches Err(ConcentratorError::BandNotFound(f, p)) && f == tx_freq && p == tx_power
                    &&& final(self).spec_trackers() == old(self).spec_trackers()
                },
                Some(i) => match old(self).band_verdict(i, item) {
                    Ok(_) => {
                        &&& r is Ok
                        &&& final(self).spec_trackers().len() == old(self).spec_trackers().len()
                        &&& forall|j: int|
                            0 <= j < old(self).spec_trackers().len() && j != i ==> #[trigger] final(self).spec_trackers()[j]
                                == old(self).spec_trackers()[j]
                        &&& final(self).spec_trackers()[i] is Some
                        &&& final(self).band_items(i) == old(self).band_items(i).push(item)
                    },
                    Err(ConcentratorError::DutyCycle) => {
                        &&& r matches Err(ConcentratorError::DutyCycle)
                        &&& final(self).spec_trackers() == old(self).spec_trackers()
                    },
                    Err(_) => {
                        &&& r matches Err(ConcentratorError::DutyCycleFutureItems)
                        &&& final(self).spec_trackers() == old(self).spec_trackers()
                    },
                },
            },
    {
        proof {
            lemma_first_band(self.config.bands@, tx_freq, tx_power);
        }
        let i = match self.config.band_index(tx_freq, tx_power) {
            Some(i) => i,
            None => {
                return Err(ConcentratorError::BandNotFound(tx_freq, tx_power));
            },
        };
        assert(self.slot_wf(i as int));
        let ghost old_trackers = self.spec_trackers();
        let slot = self.take_tracker(i);
        let had_tracker = slot.is_some();
        assert(self.spec_trackers() == old_trackers.update(i as int, None));
        let mut tracker = match slot {
            Some(t) => t,
            None => self.band_tracker(i),
        };
        let _ = as_nanos(item.end_time);
        proof {
            if had_tracker {
                assert(tracker == old_trackers[i as int].unwrap());
            } else {
                assert(tracker.spec_items() =~= Seq::<Item>::empty());
                assert(tracker.spec_tracked(nanos(item.end_time)) == 0);
                assert(!(exists|j: int| 0 <= j < tracker.spec_items().len() && #[trigger] nanos(tracker.spec_items()[j].start_time) > nanos(item.start_time)));
            }
        }
        let res = tracker.try_insert(item);
        let keep = res.is_ok() || had_tracker;
        if keep {
            self.put_tracker(i, Some(tracker));
        } else {
            self.put_tracker(i, None);
        }
        proof {
            if res is Ok {
                assert(self.spec_trackers() == old_trackers.update(i as int, Some(tracker)));
                assert(self.slot_wf(i as int));
            } else {
                assert(self.spec_trackers() =~= old_trackers);
            }
            assert forall|j: int| 0 <= j < self.spec_trackers().len() implies #[trigger] self.slot_wf(j) by {
                if j != i {
                    assert(old(self).slot_wf(j));
                    assert(self.spec_trackers()[j] == old_trackers[j]);
                }
            }
        }
        res
    }

    pub fn cleanup(&mut self, cur_time: Duration)
        requires
            old(self).wf(),
            nanos(cur_time) + old(self).spec_window() <= MAX_DURATION_NANOS,
        ensures
            final(self).wf(),
            final(self).spec_enforce() == old(self).spec_enforce(),
            final(self).spec_config() == old(self).spec_config(),
            final(self).spec_trackers().len() == old(self).spec_trackers().len(),
            forall|i: int|
                0 <= i < old(self).spec_trackers().len() ==> (#[trigger] final(self).spec_trackers()[i] is Some
                    <==> old(self).spec_trackers()[i] is Some),
            forall|i: int|
                0 <= i < old(self).spec_trackers().len() ==> #[trigger] final(self).band_items(i) == kept_items(
                    old(self).band_items(i),
                    nanos(cur_time),
                    old(self).spec_window(),
                ),
            forall|i: int|
                0 <= i < old(self).spec_trackers().len() && old(self).spec_trackers()[i] is Some ==> {
                    let before = old(self).spec_trackers()[i]->0;
                    let after = (#[trigger] final(self).spec_trackers()[i])->0;
                    &&& after.spec_window() == before.spec_window()
                    &&& after.spec_max_duration() == before.spec_max_duration()
                    &&& after.spec_enforce() == before.spec_enforce()
                },
    {
        let mut i: usize = 0;
        while i < self.config.bands.len()
            invariant
                self.wf(),
                self.spec_enforce() == old(self).spec_enforce(),
                self.spec_config() == old(self).spec_config(),
                self.spec_trackers().len() == old(self).spec_trackers().len(),
                nanos(cur_time) + old(self).spec_window() <= MAX_DURATION_NANOS,
                i <= self.spec_trackers().len(),
                forall|j: int|
                    0 <= j < old(self).spec_trackers().len() ==> (#[trigger] self.spec_trackers()[j] is Some
                        <==> old(self).spec_trackers()[j] is Some),
                forall|j: int|
                    0 <= j < i ==> #[trigger] self.band_items(j) == kept_items(
                        old(self).band_items(j),
                        nanos(cur_time),
                        old(self).spec_window(),
                    ),
                forall|j: int| i <= j < self.spec_trackers().len() ==> #[trigger] self.spec_trackers()[j] == old(self).spec_trackers()[j],
            decreases self.spec_trackers().len() - i,
        {
            let ghost before = *self;
            assert(before.slot_wf(i as int));
            assert(before.spec_trackers()[i as int] == old(self).spec_trackers()[i as int]);
            let slot = self.take_tracker(i);
            let cleaned = match slot {
                Some(mut t) => {
                    proof {
                        lemma_wf_items_defined(
                            t.spec_items(),
                            window_start(nanos(cur_time), t.spec_window()),
                            nanos(cur_time) + t.spec_window(),
                        );
                    }
                    t.cleanup(cur_time);
                    Some(t)
                },
                None => None,
            };
            self.put_tracker(i, cleaned);
            proof {
                assert(self.spec_trackers() == before.spec_trackers().update(i as int, cleaned));
                assert(self.slot_wf(i as int));
                assert forall|j: int| 0 <= j < self.spec_trackers().len() implies #[trigger] self.slot_wf(j) by {
                    if j != i {
                        assert(before.slot_wf(j));
                        assert(self.spec_trackers()[j] == before.spec_trackers()[j]);
                    }
                }
                if slot is None {
                    assert(kept_items(Seq::<Item>::empty(), nanos(cur_time), old(self).spec_window()) =~= Seq::<Item>::empty());
                }
                assert(self.band_items(i as int) == kept_items(old(self).band_items(i as int), nanos(cur_time), old(self).spec_window()));
                assert forall|j: int| 0 <= j < i + 1 implies #[trigger] self.band_items(j) == kept_items(
                    old(self).band_items(j),
                    nanos(cur_time),
                    old(self).spec_window(),
                ) by {
                    if j != i {
                        assert(self.spec_trackers()[j] == before.spec_trackers()[j]);
                        assert(before.band_items(j) == kept_items(old(self).band_items(j), nanos(cur_time), old(self).spec_window()));
                    }
                }
            }
            i += 1;
        }
        assert forall|i: int|
            0 <= i < old(self).spec_trackers().len() && old(self).spec_trackers()[i] is Some implies {
                let before = old(self).spec_trackers()[i]->0;
                let after = (#[trigger] self.spec_trackers()[i])->0;
                &&& after.spec_window() == before.spec_window()
                &&& after.spec_max_duration() == before.spec_max_duration()
                &&& after.spec_enforce() == before.spec_enforce()
            } by {
            assert(old(self).slot_wf(i));
            assert(self.slot_wf(i));
        }
    }

    pub fn get_window(&self) -> (w: Duration)
        ensures
            w == self.spec_config().window_time,
    {
        self.config.window_time
    }

    /// The tracked time of each band that has a tracker, at `linear_count`.
    pub fn get_tracked_durations(&self, linear_count: Duration) -> (r: Vec<(Band, Duration)>)
        requires
            self.wf(),
            forall|i: int|
                0 <= i < self.spec_trackers().len() ==> match #[trigger] self.spec_trackers()[i] {
                    Some(t) => t.spec_tracked(nanos(linear_count)) <= MAX_DURATION_NANOS,
                    None => true,
                },
        ensures
            r@.len() == tracked_durations(self.spec_config().bands@, self.spec_trackers(), nanos(linear_count)).len(),
            forall|k: int|
                0 <= k < r@.len() ==> {
                    let (b, d) = tracked_durations(self.spec_config().bands@, self.spec_trackers(), nanos(linear_count))[k];
                    &&& (#[trigger] r@[k]).0 == b
                    &&& nanos(r@[k].1) == d
                },
    {
        let ghost bands = self.config.bands@;
        let ghost trackers = self.spec_trackers();
        let ghost time = nanos(linear_count);
        let mut out: Vec<(Band, Duration)> = Vec::new();
        let mut i: usize = 0;
        while i < self.config.bands.len()
            invariant
                self.wf(),
                bands == self.config.bands@,
                trackers == self.spec_trackers(),
                time == nanos(linear_count),
                i <= trackers.len(),
                forall|j: int|
                    0 <= j < trackers.len() ==> match #[trigger] trackers[j] {
                        Some(t) => t.spec_tracked(time) <= MAX_DURATION_NANOS,
                        None => true,
                    },
                out@.len() == tracked_durations(bands, trackers.take(i as int), time).len(),
                forall|k: int|
                    0 <= k < out@.len() ==> {
                        let (b, d) = tracked_durations(bands, trackers.take(i as int), time)[k];
                        &&& (#[trigger] out@[k]).0 == b
                        &&& nanos(out@[k].1) == d
                    },
            decreases trackers.len() - i,
        {
            proof {
                assert(trackers.take(i + 1).drop_last() == trackers.take(i as int));
                assert(trackers.take(i + 1).last() == trackers[i as int]);
                assert(self.slot_wf(i as int));
            }
            match self.trackers.get(&i) {
                Some(t) => {
                    proof {
                        lemma_wf_items_defined(
                            t.spec_items(),
                            window_start(nanos(linear_count), t.spec_window()),
                            nanos(linear_count),
                        );
                    }
                    let d = t.tracked_duration(linear_count);
                    let b = self.config.bands[i].clone();
                    out.push((b, d));
                },
                None => {},
            }
            i += 1;
        }
        assert(trackers.take(trackers.len() as int) == trackers);
        out
    }

    pub fn get_regulation(&self) -> (r: Regulation)
        ensures
            r == self.spec_config().regulation,
    {
        self.config.get_regulation()
    }
}

} // verus!
