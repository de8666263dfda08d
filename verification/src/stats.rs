//! The gateway statistics: counters of the packets received and sent since the
//! statistics were last sent.
use std::collections::HashMap;
use vstd::prelude::*;

use crate::status::TxAckStatus;

verus! {

broadcast use vstd::std_specs::hash::group_hash_axioms;

/// No key occurs twice in `s`.
pub open spec fn keys_unique<K>(s: Seq<(K, u32)>) -> bool {
    forall|i: int, j: int| 0 <= i < j < s.len() ==> (#[trigger] s[i]).0 != (#[trigger] s[j]).0
}

/// The map from each key of `s` to its count.
pub open spec fn counts<K>(s: Seq<(K, u32)>) -> Map<K, u32>
    decreases s.len(),
{
    if s.len() == 0 {
        Map::empty()
    } else {
        counts(s.drop_last()).insert(s.last().0, s.last().1)
    }
}

/// `m` with the count of `k` raised by one (a key not in `m` gets the count 1).
pub open spec fn counted<K>(m: Map<K, u32>, k: K) -> Map<K, u32> {
    if m.contains_key(k) {
        m.insert(k, (m[k] + 1) as u32)
    } else {
        m.insert(k, 1)
    }
}

/// The keys of the map are the keys of the sequence, each with its count.
pub proof fn lemma_counts_index<K>(s: Seq<(K, u32)>)
    requires
        keys_unique(s),
    ensures
        forall|k: K| counts(s).contains_key(k) <==> exists|i: int| 0 <= i < s.len() && (#[trigger] s[i]).0 == k,
        forall|i: int| 0 <= i < s.len() ==> #[trigger] counts(s)[s[i].0] == s[i].1,
    decreases s.len(),
{
    if s.len() > 0 {
        let init = s.drop_last();
        assert forall|a: int, b: int| 0 <= a < b < init.len() implies (#[trigger] init[a]).0 != (#[trigger] init[b]).0 by {
            assert(init[a] == s[a]);
            assert(init[b] == s[b]);
        }
        lemma_counts_index(init);
        assert forall|k: K| counts(s).contains_key(k) <==> exists|i: int| 0 <= i < s.len() && (#[trigger] s[i]).0 == k by {
            if k == s.last().0 {
                assert(s[s.len() - 1].0 == k);
            } else {
                if counts(init).contains_key(k) {
                    let i = choose|i: int| 0 <= i < init.len() && (#[trigger] init[i]).0 == k;
                    assert(s[i] == init[i]);
                }
                if exists|i: int| 0 <= i < s.len() && (#[trigger] s[i]).0 == k {
                    let i = choose|i: int| 0 <= i < s.len() && (#[trigger] s[i]).0 == k;
                    assert(i < s.len() - 1);
                    assert(init[i] == s[i]);
                    assert(counts(init).contains_key(k));
                }
            }
        }
        assert forall|i: int| 0 <= i < s.len() implies #[trigger] counts(s)[s[i].0] == s[i].1 by {
            if i < s.len() - 1 {
                assert(init[i] == s[i]);
                assert(s[i].0 != s[s.len() - 1].0);
                assert(counts(init)[init[i].0] == init[i].1);
            }
        }
    }
}

/// Changing the count at place `i` changes the count of its key in the map.
pub proof fn lemma_counts_update<K>(s: Seq<(K, u32)>, i: int, c: u32)
    requires
        keys_unique(s),
        0 <= i < s.len(),
    ensures
        keys_unique(s.update(i, (s[i].0, c))),
        counts(s.update(i, (s[i].0, c))) == counts(s).insert(s[i].0, c),
    decreases s.len(),
{
    let t = s.update(i, (s[i].0, c));
    assert forall|a: int, b: int| 0 <= a < b < t.len() implies (#[trigger] t[a]).0 != (#[trigger] t[b]).0 by {
        assert(t[a].0 == s[a].0);
        assert(t[b].0 == s[b].0);
    }
    let init = s.drop_last();
    assert forall|a: int, b: int| 0 <= a < b < init.len() implies (#[trigger] init[a]).0 != (#[trigger] init[b]).0 by {
        assert(init[a] == s[a]);
        assert(init[b] == s[b]);
    }
    if i == s.len() - 1 {
        assert(t.drop_last() == init);
        assert(counts(t) =~= counts(s).insert(s[i].0, c));
    } else {
        lemma_counts_update(init, i, c);
        assert(t.drop_last() == init.update(i, (init[i].0, c)));
        assert(init[i] == s[i]);
        assert(s[i].0 != s.last().0);
        assert(counts(t) =~= counts(s).insert(s[i].0, c));
    }
}

/// The modulation parameters of a packet, as the gateway protocol describes them.
#[derive(Debug, Clone, PartialEq, Eq)]
pub enum ModulationParameters {
    LoRa {
        bandwidth: u32,
        spreading_factor: u32,
        code_rate_legacy: String,
        code_rate: i32,
        polarization_inversion: bool,
        preamble: u32,
        no_crc: bool,
    },
    Fsk { frequency_deviation: u32, datarate: u32 },
    LrFhss { operating_channel_width: u32, code_rate_legacy: String, code_rate: i32, grid_steps: u32 },
}

/// The modulation of a packet, as the gateway protocol describes it.
#[derive(Debug, Clone, PartialEq, Eq)]
pub struct Modulation {
    pub parameters: Option<ModulationParameters>,
}

/// What tells two (possibly absent) modulations apart: each of their fields, a text
/// by its characters.
pub enum ModulationKey {
    Absent,
    NoParameters,
    LoRa(u32, u32, Seq<char>, i32, bool, u32, bool),
    Fsk(u32, u32),
    LrFhss(u32, Seq<char>, i32, u32),
}

/// The key of a (possibly absent) modulation.
pub open spec fn modulation_key(m: Option<Modulation>) -> ModulationKey {
    match m {
        None => ModulationKey::Absent,
        Some(m) => match m.parameters {
            None => ModulationKey::NoParameters,
            Some(ModulationParameters::LoRa {
                bandwidth,
                spreading_factor,
                code_rate_legacy,
                code_rate,
                polarization_inversion,
                preamble,
                no_crc,
            }) => ModulationKey::LoRa(
                bandwidth,
                spreading_factor,
                code_rate_legacy@,
                code_rate,
                polarization_inversion,
                preamble,
                no_crc,
            ),
            Some(ModulationParameters::Fsk { frequency_deviation, datarate }) => ModulationKey::Fsk(
                frequency_deviation,
                datarate,
            ),
            Some(ModulationParameters::LrFhss { operating_channel_width, code_rate_legacy, code_rate, grid_steps }) =>
                ModulationKey::LrFhss(operating_channel_width, code_rate_legacy@, code_rate, grid_steps),
        },
    }
}

/// The counts `v` with each modulation taken by its key.
pub open spec fn keyed(v: Seq<(Option<Modulation>, u32)>) -> Seq<(ModulationKey, u32)> {
    v.map_values(|p: (Option<Modulation>, u32)| (modulation_key(p.0), p.1))
}

/// Whether two modulation parameters are the same, field by field.
fn same_parameters(a: &ModulationParameters, b: &ModulationParameters) -> (r: bool)
    ensures
        r == (modulation_key(Some(Modulation { parameters: Some(*a) })) == modulation_key(
            Some(Modulation { parameters: Some(*b) }),
        )),
{
    match (a, b) {
        (
            ModulationParameters::LoRa {
                bandwidth: b1,
                spreading_factor: s1,
                code_rate_legacy: l1,
                code_rate: c1,
                polarization_inversion: p1,
                preamble: r1,
                no_crc: n1,
            },
            ModulationParameters::LoRa {
                bandwidth: b2,
                spreading_factor: s2,
                code_rate_legacy: l2,
                code_rate: c2,
                polarization_inversion: p2,
                preamble: r2,
                no_crc: n2,
            },
        ) => *b1 == *b2 && *s1 == *s2 && *l1 == *l2 && *c1 == *c2 && *p1 == *p2 && *r1 == *r2 && *n1 == *n2,
        (
            ModulationParameters::Fsk { frequency_deviation: f1, datarate: d1 },
            ModulationParameters::Fsk { frequency_deviation: f2, datarate: d2 },
        ) => *f1 == *f2 && *d1 == *d2,
        (
            ModulationParameters::LrFhss {
                operating_channel_width: w1,
                code_rate_legacy: l1,
                code_rate: c1,
                grid_steps: g1,
            },
            ModulationParameters::LrFhss {
                operating_channel_width: w2,
                code_rate_legacy: l2,
                code_rate: c2,
                grid_steps: g2,
            },
        ) => *w1 == *w2 && *l1 == *l2 && *c1 == *c2 && *g1 == *g2,
        _ => false,
    }
}

/// Whether two (possibly absent) modulations are the same, field by field.
pub fn same_modulation(a: &Option<Modulation>, b: &Option<Modulation>) -> (r: bool)
    ensures
        r == (modulation_key(*a) == modulation_key(*b)),
{
    match (a, b) {
        (None, None) => true,
        (Some(x), Some(y)) => match (&x.parameters, &y.parameters) {
            (None, None) => true,
            (Some(p), Some(q)) => same_parameters(p, q),
            _ => false,
        },
        _ => false,
    }
}

/// `new` is the per-modulation counts `old` with the modulation `key` counted once
/// more: the count of its entry raised by one, or, when it has none, a new entry
/// for it with the count 1 at the end.
pub open spec fn modulation_counted(
    old: Seq<(Option<Modulation>, u32)>,
    key: Option<Modulation>,
    new: Seq<(Option<Modulation>, u32)>,
) -> bool {
    if exists|i: int| 0 <= i < old.len() && modulation_key((#[trigger] old[i]).0) == modulation_key(key) {
        let i = choose|i: int| 0 <= i < old.len() && modulation_key((#[trigger] old[i]).0) == modulation_key(key);
        new == old.update(i, (old[i].0, (old[i].1 + 1) as u32))
    } else {
        new == old.push((key, 1u32))
    }
}

/// Raises the count of the modulation `key` by one in the counts `v`.
fn increment_modulation(v: &mut Vec<(Option<Modulation>, u32)>, key: Option<Modulation>)
    requires
        keys_unique(keyed(old(v)@)),
        counts(keyed(old(v)@)).contains_key(modulation_key(key)) ==> counts(keyed(old(v)@))[modulation_key(key)]
            < u32::MAX,
    ensures
        keys_unique(keyed(final(v)@)),
        counts(keyed(final(v)@)) == counted(counts(keyed(old(v)@)), modulation_key(key)),
        modulation_counted(old(v)@, key, final(v)@),
{
    let ghost k = modulation_key(key);
    let mut i: usize = 0;
    while i < v.len()
        invariant
            *v == *old(v),
            k == modulation_key(key),
            keys_unique(keyed(v@)),
            counts(keyed(v@)).contains_key(k) ==> counts(keyed(v@))[k] < u32::MAX,
            i <= v@.len(),
            forall|j: int| 0 <= j < i ==> (#[trigger] keyed(v@)[j]).0 != k,
        decreases v@.len() - i,
    {
        proof {
            lemma_counts_index(keyed(v@));
        }
        if same_modulation(&v[i].0, &key) {
            let ghost before = v@;
            let c = v[i].1;
            assert(keyed(before)[i as int] == (k, c));
            assert(counts(keyed(before))[k] == c);
            proof {
                lemma_counts_update(keyed(before), i as int, (c + 1) as u32);
            }
            let (m, c) = v.remove(i);
            v.insert(i, (m, c + 1));
            assert(v@ =~= before.update(i as int, (m, (c + 1) as u32)));
            assert(keyed(v@) =~= keyed(before).update(i as int, (k, (c + 1) as u32)));
            proof {
                assert(modulation_key(before[i as int].0) == k);
                let j = choose|j: int| 0 <= j < before.len() && modulation_key((#[trigger] before[j]).0) == k;
                if j != i {
                    assert(keyed(before)[j].0 == k);
                    if j < i {
                        assert((keyed(before)[j]).0 != (keyed(before)[i as int]).0);
                    } else {
                        assert((keyed(before)[i as int]).0 != (keyed(before)[j]).0);
                    }
                }
            }
            return;
        }
        i += 1;
    }
    proof {
        lemma_counts_index(keyed(v@));
        assert forall|j: int| 0 <= j < v@.len() implies modulation_key((#[trigger] v@[j]).0) != k by {
            assert(keyed(v@)[j].0 == modulation_key(v@[j].0));
        }
        if counts(keyed(v@)).contains_key(k) {
            let j = choose|j: int| 0 <= j < keyed(v@).len() && (#[trigger] keyed(v@)[j]).0 == k;
            assert(false);
        }
    }
    let ghost before = v@;
    v.push((key, 1));
    assert(keyed(v@) =~= keyed(before).push((k, 1u32)));
    assert(keyed(v@).drop_last() =~= keyed(before));
    assert forall|a: int, b: int| 0 <= a < b < keyed(v@).len() implies (#[trigger] keyed(v@)[a]).0 != (
    #[trigger] keyed(v@)[b]).0 by {
        if b == keyed(v@).len() - 1 {
            assert(keyed(v@)[a] == keyed(before)[a]);
        } else {
            assert(keyed(v@)[a] == keyed(before)[a]);
            assert(keyed(v@)[b] == keyed(before)[b]);
        }
    }
}

/// Raises the count of `key` by one in the counts `m`.
fn increment_count(m: &mut HashMap<u32, u32>, key: u32)
    requires
        old(m)@.contains_key(key) ==> old(m)@[key] < u32::MAX,
    ensures
        final(m)@ == counted(old(m)@, key),
{
    let c: u32 = match m.get(&key) {
        Some(v) => *v,
        None => 0,
    };
    m.insert(key, c + 1);
}

pub struct Stats {
    pub rx_packets_received: u32,
    pub rx_packets_received_ok: u32,
    pub tx_packets_received: u32,
    pub tx_packets_emitted: u32,
    pub rx_packets_per_frequency: HashMap<u32, u32>,
    pub tx_packets_per_frequency: HashMap<u32, u32>,
    /// The acknowledged downlinks per status, by the status's number in the gateway
    /// protocol.
    pub tx_packets_per_status: HashMap<u32, u32>,
    pub rx_packets_per_modulation: Vec<(Option<Modulation>, u32)>,
    pub tx_packets_per_modulation: Vec<(Option<Modulation>, u32)>,
}

/// `new` equals `old` in every field but those that the increment names.
pub open spec fn same_except(
    old: Stats,
    new: Stats,
    rx_received: bool,
    rx_ok: bool,
    tx_received: bool,
    tx_emitted: bool,
    rx_freq: bool,
    tx_freq: bool,
    status: bool,
    rx_mod: bool,
    tx_mod: bool,
) -> bool {
    &&& !rx_received ==> new.rx_packets_received == old.rx_packets_received
    &&& !rx_ok ==> new.rx_packets_received_ok == old.rx_packets_received_ok
    &&& !tx_received ==> new.tx_packets_received == old.tx_packets_received
    &&& !tx_emitted ==> new.tx_packets_emitted == old.tx_packets_emitted
    &&& !rx_freq ==> new.rx_packets_per_frequency@ == old.rx_packets_per_frequency@
    &&& !tx_freq ==> new.tx_packets_per_frequency@ == old.tx_packets_per_frequency@
    &&& !status ==> new.tx_packets_per_status@ == old.tx_packets_per_status@
    &&& !rx_mod ==> new.rx_packets_per_modulation@ == old.rx_packets_per_modulation@
    &&& !tx_mod ==> new.tx_packets_per_modulation@ == old.tx_packets_per_modulation@
}

impl Stats {
    /// The received packets per frequency.
    pub open spec fn rx_per_frequency(&self) -> Map<u32, u32> {
        self.rx_packets_per_frequency@
    }

    /// The emitted packets per frequency.
    pub open spec fn tx_per_frequency(&self) -> Map<u32, u32> {
        self.tx_packets_per_frequency@
    }

    /// The acknowledged downlinks per status number.
    pub open spec fn tx_per_status(&self) -> Map<u32, u32> {
        self.tx_packets_per_status@
    }

    /// The received packets per modulation.
    pub open spec fn rx_per_modulation(&self) -> Map<ModulationKey, u32> {
        counts(keyed(self.rx_packets_per_modulation@))
    }

    /// The emitted packets per modulation.
    pub open spec fn tx_per_modulation(&self) -> Map<ModulationKey, u32> {
        counts(keyed(self.tx_packets_per_modulation@))
    }

    /// Each modulation has one count at most.
    pub open spec fn wf(&self) -> bool {
        &&& keys_unique(keyed(self.rx_packets_per_modulation@))
        &&& keys_unique(keyed(self.tx_packets_per_modulation@))
    }

    /// No count yet.
    pub open spec fn is_empty(&self) -> bool {
        &&& self.rx_packets_received == 0
        &&& self.rx_packets_received_ok == 0
        &&& self.tx_packets_received == 0
        &&& self.tx_packets_emitted == 0
        &&& self.rx_per_frequency() == Map::<u32, u32>::empty()
        &&& self.tx_per_frequency() == Map::<u32, u32>::empty()
        &&& self.tx_per_status() == Map::<u32, u32>::empty()
        &&& self.rx_packets_per_modulation@.len() == 0
        &&& self.tx_packets_per_modulation@.len() == 0
    }

    pub fn new() -> (s: Self)
        ensures
            s.wf(),
            s.is_empty(),
    {
        Stats {
            rx_packets_received: 0,
            rx_packets_received_ok: 0,
            tx_packets_received: 0,
            tx_packets_emitted: 0,
            rx_packets_per_frequency: HashMap::new(),
            tx_packets_per_frequency: HashMap::new(),
            tx_packets_per_status: HashMap::new(),
            rx_packets_per_modulation: Vec::new(),
            tx_packets_per_modulation: Vec::new(),
        }
    }

    /// Counts a packet received without error, and, when it has transmission
    /// details (its frequency and modulation), on its frequency and its modulation.
    pub fn inc_rx_counts(&mut self, tx_info: Option<(u32, Option<Modulation>)>)
        requires
            old(self).wf(),
            old(self).rx_packets_received_ok < u32::MAX,
            match tx_info {
                Some((f, m)) => {
                    &&& old(self).rx_per_frequency().contains_key(f) ==> old(self).rx_per_frequency()[f] < u32::MAX
                    &&& old(self).rx_per_modulation().contains_key(modulation_key(m))
                        ==> old(self).rx_per_modulation()[modulation_key(m)] < u32::MAX
                },
                None => true,
            },
        ensures
            final(self).wf(),
            final(self).rx_packets_received_ok == old(self).rx_packets_received_ok + 1,
            match tx_info {
                Some((f, m)) => {
                    &&& final(self).rx_per_frequency() == counted(old(self).rx_per_frequency(), f)
                    &&& modulation_counted(old(self).rx_packets_per_modulation@, m, final(self).rx_packets_per_modulation@)
                    &&& final(self).rx_per_modulation() == counted(old(self).rx_per_modulation(), modulation_key(m))
                    &&& same_except(*old(self), *final(self), false, true, false, false, true, false, false, true, false)
                },
                None => same_except(*old(self), *final(self), false, true, false, false, false, false, false, false, false),
            },
    {
        self.rx_packets_received_ok += 1;
        if let Some((f, m)) = tx_info {
            increment_count(&mut self.rx_packets_per_frequency, f);
            increment_modulation(&mut self.rx_packets_per_modulation, m);
        }
    }

    /// Counts an emitted packet, on its frequency and its modulation.
    pub fn inc_tx_counts(&mut self, frequency: u32, modulation: Option<Modulation>)
        requires
            old(self).wf(),
            old(self).tx_packets_emitted < u32::MAX,
            old(self).tx_per_frequency().contains_key(frequency) ==> old(self).tx_per_frequency()[frequency]
                < u32::MAX,
            old(self).tx_per_modulation().contains_key(modulation_key(modulation))
                ==> old(self).tx_per_modulation()[modulation_key(modulation)] < u32::MAX,
        ensures
            final(self).wf(),
            final(self).tx_packets_emitted == old(self).tx_packets_emitted + 1,
            final(self).tx_per_frequency() == counted(old(self).tx_per_frequency(), frequency),
            modulation_counted(old(self).tx_packets_per_modulation@, modulation, final(self).tx_packets_per_modulation@),
            final(self).tx_per_modulation() == counted(old(self).tx_per_modulation(), modulation_key(modulation)),
            same_except(*old(self), *final(self), false, false, false, true, false, true, false, false, true),
    {
        self.tx_packets_emitted += 1;
        increment_count(&mut self.tx_packets_per_frequency, frequency);
        increment_modulation(&mut self.tx_packets_per_modulation, modulation);
    }

    /// Counts an acknowledged downlink under its status.
    pub fn inc_tx_status_count(&mut self, status: TxAckStatus)
        requires
            old(self).tx_per_status().contains_key(status.spec_code()) ==> old(self).tx_per_status()[status.spec_code()]
                < u32::MAX,
        ensures
            final(self).tx_per_status() == counted(old(self).tx_per_status(), status.spec_code()),
            same_except(*old(self), *final(self), false, false, false, false, false, false, true, false, false),
            old(self).wf() ==> final(self).wf(),
    {
        increment_count(&mut self.tx_packets_per_status, status.code());
    }

    pub fn inc_rx_packets_received(&mut self)
        requires
            old(self).rx_packets_received < u32::MAX,
        ensures
            final(self).rx_packets_received == old(self).rx_packets_received + 1,
            same_except(*old(self), *final(self), true, false, false, false, false, false, false, false, false),
            old(self).wf() ==> final(self).wf(),
    {
        self.rx_packets_received += 1;
    }

    pub fn inc_tx_packets_received(&mut self)
        requires
            old(self).tx_packets_received < u32::MAX,
        ensures
            final(self).tx_packets_received == old(self).tx_packets_received + 1,
            same_except(*old(self), *final(self), false, false, true, false, false, false, false, false, false),
            old(self).wf() ==> final(self).wf(),
    {
        self.tx_packets_received += 1;
    }

    /// Takes the statistics gathered so far and starts counting anew.
    pub fn take(&mut self) -> (s: Stats)
        ensures
            s == *old(self),
            final(self).wf(),
            final(self).is_empty(),
    {
        let mut fresh = Stats::new();
        std::mem::swap(self, &mut fresh);
        fresh
    }
}


/// Counting a key once more raises its count by one (a key not yet counted gets the
/// count 1) and leaves every other key as it was.
pub proof fn lemma_counted<K>(m: Map<K, u32>, k: K)
    requires
        m.contains_key(k) ==> m[k] < u32::MAX,
    ensures
        counted(m, k).contains_key(k),
        counted(m, k)[k] == (if m.contains_key(k) { m[k] as int } else { 0 }) + 1,
        forall|j: K| j != k ==> (#[trigger] counted(m, k).contains_key(j) <==> m.contains_key(j)),
        forall|j: K| j != k && m.contains_key(j) ==> #[trigger] counted(m, k)[j] == m[j],
{
}

} // verus!
