//! The sensor registry: one record per present identity, a bounded ring of
//! recent samples per record, and the broadcast bus its mutators publish on.
//!
//! Every mutator states exactly which sensor changes, how its ring changes,
//! and which event every attached subscriber with room receives; a rejected
//! sample, an unknown identity or a repeated error string leave both the
//! registry and the bus untouched.
use vstd::prelude::*;

use crate::bus::{publish_spec, Bus, FollowerSpec};
use crate::kv::{assoc_map, keys_unique, lemma_assoc_map_dom, lemma_assoc_map_index,
    lemma_assoc_map_push, lemma_assoc_map_remove, lemma_assoc_map_update};
use crate::sample::{is_sample_rejected, sample_rejected};
use crate::sensor::{id_index, Sensor, SensorId, SensorMessage, SensorSpec};
use crate::store::{Store, StoreSpec, StoredSensor, StoredSensorSpec};

use vstd::string::*;

verus! {

/// The mathematical content of the registry: the sensor map, the bus, and
/// the history bound.
#[verifier::ext_equal]
pub ghost struct SensorsSpec {
    pub sensors: Map<SensorId, SensorSpec>,
    pub bus: Seq<FollowerSpec>,
    pub retention: usize,
}

/// A subscriber's handle on the registry's bus.
pub struct Subscription {
    index: usize,
}

impl Subscription {
    pub closed spec fn index_spec(self) -> usize {
        self.index
    }
}

/// The registry.
pub struct Sensors {
    retention: usize,
    entries: Vec<(SensorId, Sensor)>,
    bus: Bus,
}

/// The period a reconfiguration assigns when the client names none.
pub open spec fn rate_or_default(rate: Option<usize>) -> usize {
    match rate {
        Some(r) => r,
        None => 1000,
    }
}

/// What recording a sample does to a ring: the sample goes in front, and
/// whatever no longer fits within the bound falls off the back.
pub open spec fn push_sample(vs: Seq<u64>, v: u64, r: usize) -> Seq<u64> {
    let all = seq![v] + vs;
    if all.len() <= r {
        all
    } else {
        all.take(r as int)
    }
}

/// The entry pairs a registry walk yields.
pub open spec fn entries_view(v: Seq<(SensorId, Sensor)>) -> Seq<(SensorId, SensorSpec)> {
    v.map_values(|p: (SensorId, Sensor)| (p.0, p.1@))
}

/// The live record a durable record boots into: the stored configuration
/// with an empty history and no error.
pub open spec fn sensor_of_record(rec: StoredSensorSpec) -> SensorSpec {
    SensorSpec {
        alias: rec.alias,
        unit: rec.unit,
        rate: rec.rate,
        source: rec.source,
        values: Seq::empty(),
        error: None,
    }
}

/// The configuration a built-in channel falls back to when the store holds
/// no record for it.
pub open spec fn default_builtin(id: SensorId) -> SensorSpec {
    SensorSpec {
        alias: match id {
            SensorId::Tmp0 => "Tmp0"@,
            SensorId::Tmp1 => "Tmp1"@,
            SensorId::Tmp2 => "Tmp2"@,
            SensorId::Tmp3 => "Tmp3"@,
            SensorId::RPi => "RPi"@,
            SensorId::RPM0 => "Rpm0"@,
            SensorId::RPM1 => "Rpm1"@,
            SensorId::Virtual(_) => ""@,
        },
        unit: match id {
            SensorId::RPM0 => "RPM"@,
            SensorId::RPM1 => "RPM"@,
            SensorId::Virtual(_) => ""@,
            _ => "°C"@,
        },
        rate: match id {
            SensorId::RPi => 3000,
            SensorId::RPM0 => 6000,
            SensorId::RPM1 => 6000,
            _ => 1000,
        },
        source: None,
        values: Seq::empty(),
        error: None,
    }
}

/// The record a built-in identity boots with: its stored record, or the
/// default when the store has none.
pub open spec fn boot_builtin(st: StoreSpec, id: SensorId) -> SensorSpec {
    if st.builtin.contains_key(id_index(id)) {
        sensor_of_record(st.builtin[id_index(id)])
    } else {
        default_builtin(id)
    }
}

/// All seven built-in channels, booted from the store.
pub open spec fn builtin_boot_map(st: StoreSpec) -> Map<SensorId, SensorSpec> {
    Map::empty().insert(SensorId::Tmp0, boot_builtin(st, SensorId::Tmp0)).insert(
        SensorId::Tmp1,
        boot_builtin(st, SensorId::Tmp1),
    ).insert(SensorId::Tmp2, boot_builtin(st, SensorId::Tmp2)).insert(
        SensorId::Tmp3,
        boot_builtin(st, SensorId::Tmp3),
    ).insert(SensorId::RPi, boot_builtin(st, SensorId::RPi)).insert(
        SensorId::RPM0,
        boot_builtin(st, SensorId::RPM0),
    ).insert(SensorId::RPM1, boot_builtin(st, SensorId::RPM1))
}

/// The registry content after booting the built-ins and the first `i`
/// records of the store's virtual namespace walk.
pub open spec fn boot_map_prefix(
    st: StoreSpec,
    vs: Seq<(usize, StoredSensorSpec)>,
    i: int,
) -> Map<SensorId, SensorSpec>
    decreases i,
{
    if i <= 0 {
        builtin_boot_map(st)
    } else {
        boot_map_prefix(st, vs, i - 1).insert(
            SensorId::Virtual(vs[i - 1].0),
            sensor_of_record(vs[i - 1].1),
        )
    }
}

/// Whether an identity is one of the seven built-in channels.
pub open spec fn is_builtin(id: SensorId) -> bool {
    !(id is Virtual)
}

/// Boots a live record from a durable one.
fn sensor_of_record_exec(rec: &StoredSensor) -> (r: Sensor)
    ensures
        r@ == sensor_of_record(rec@),
{
    let r = Sensor {
        alias: rec.alias.clone(),
        values: std::collections::VecDeque::new(),
        unit: rec.unit.clone(),
        rate: rec.rate,
        source: crate::sensor::clone_opt_string(&rec.source),
        error: None,
    };
    proof {
        assert(r@ =~= sensor_of_record(rec@));
    }
    r
}

/// Builds a built-in channel's default record.
fn default_builtin_sensor(id: SensorId) -> (r: Sensor)
    requires
        !(id is Virtual),
    ensures
        r@ == default_builtin(id),
{
    let alias: &str = match id {
        SensorId::Tmp0 => "Tmp0",
        SensorId::Tmp1 => "Tmp1",
        SensorId::Tmp2 => "Tmp2",
        SensorId::Tmp3 => "Tmp3",
        SensorId::RPi => "RPi",
        SensorId::RPM0 => "Rpm0",
        _ => "Rpm1",
    };
    let unit: &str = match id {
        SensorId::RPM0 => "RPM",
        SensorId::RPM1 => "RPM",
        _ => "°C",
    };
    let rate: usize = match id {
        SensorId::RPi => 3000,
        SensorId::RPM0 => 6000,
        SensorId::RPM1 => 6000,
        _ => 1000,
    };
    let r = Sensor {
        alias: String::from_str(alias),
        values: std::collections::VecDeque::new(),
        unit: String::from_str(unit),
        rate,
        source: None,
        error: None,
    };
    proof {
        assert(r@ =~= default_builtin(id));
    }
    r
}

/// What the boot map contains: the built-ins, and one virtual sensor per
/// walked record.
pub proof fn lemma_boot_prefix_dom(
    st: StoreSpec,
    vs: Seq<(usize, StoredSensorSpec)>,
    i: int,
    id: SensorId,
)
    requires
        0 <= i <= vs.len(),
    ensures
        boot_map_prefix(st, vs, i).contains_key(id) <==> is_builtin(id) || exists|j: int|
            0 <= j < i && id == SensorId::Virtual((#[trigger] vs[j]).0),
    decreases i,
{
    if i <= 0 {
        assert(builtin_boot_map(st).contains_key(id) <==> is_builtin(id));
    } else {
        lemma_boot_prefix_dom(st, vs, i - 1, id);
        if id == SensorId::Virtual(vs[i - 1].0) {
            assert(boot_map_prefix(st, vs, i).contains_key(id));
        }
    }
}

/// A record's place in the boot map is untouched by booting the other
/// records: each virtual record boots independently.
pub proof fn lemma_boot_prefix_at(
    st: StoreSpec,
    vs: Seq<(usize, StoredSensorSpec)>,
    i: int,
    j: int,
)
    requires
        keys_unique(vs),
        0 <= j < i <= vs.len(),
    ensures
        boot_map_prefix(st, vs, i).contains_key(SensorId::Virtual(vs[j].0)),
        boot_map_prefix(st, vs, i)[SensorId::Virtual(vs[j].0)] == sensor_of_record(vs[j].1),
    decreases i,
{
    if i - 1 == j {
    } else {
        lemma_boot_prefix_at(st, vs, i - 1, j);
        assert(vs[i - 1].0 != vs[j].0);
    }
}

/// Booting from any store re-creates every built-in channel: the seven
/// built-in identities are present from startup on, whatever the disk held.
pub proof fn lemma_builtins_present_after_boot(
    st: StoreSpec,
    vs: Seq<(usize, StoredSensorSpec)>,
    id: SensorId,
)
    requires
        is_builtin(id),
    ensures
        boot_map_prefix(st, vs, vs.len() as int).contains_key(id),
{
    lemma_boot_prefix_dom(st, vs, vs.len() as int, id);
}

/// A saved virtual sensor survives a restart: rebuilding the registry from a
/// store whose virtual namespace holds a record under index `k` — as it does
/// after the sensor was added and reconfigured — yields `Virtual(k)` carrying
/// exactly the recorded alias, unit, rate and source, with an empty sample
/// history and no error. The walk `vs` is the store's startup walk, which
/// carries pairwise distinct keys and denotes the virtual namespace.
pub proof fn lemma_round_trip_persistence(
    st: StoreSpec,
    vs: Seq<(usize, StoredSensorSpec)>,
    k: usize,
)
    requires
        keys_unique(vs),
        assoc_map(vs) == st.virt,
        st.virt.contains_key(k),
    ensures
        ({
            let m = boot_map_prefix(st, vs, vs.len() as int);
            let id = SensorId::Virtual(k);
            &&& m.contains_key(id)
            &&& m[id].alias == st.virt[k].alias
            &&& m[id].unit == st.virt[k].unit
            &&& m[id].rate == st.virt[k].rate
            &&& m[id].source == st.virt[k].source
            &&& m[id].values == Seq::<u64>::empty()
            &&& m[id].error is None
        }),
{
    lemma_assoc_map_dom(vs, k);
    let j = choose|j: int| 0 <= j < vs.len() && (#[trigger] vs[j]).0 == k;
    lemma_assoc_map_index(vs, j);
    lemma_boot_prefix_at(st, vs, vs.len() as int, j);
}

impl View for Sensors {
    type V = SensorsSpec;

    closed spec fn view(&self) -> SensorsSpec {
        SensorsSpec {
            sensors: assoc_map(entries_view(self.entries@)),
            bus: self.bus@,
            retention: self.retention,
        }
    }
}

impl Sensors {
    /// Identities appear once and are well formed, no ring exceeds the
    /// history bound, and the bus is well formed.
    pub closed spec fn wf(self) -> bool {
        &&& keys_unique(entries_view(self.entries@))
        &&& forall|i: int|
            0 <= i < self.entries@.len() ==> (#[trigger] self.entries@[i]).0.wf()
        &&& forall|i: int|
            0 <= i < self.entries@.len() ==> (#[trigger] self.entries@[i]).1@.values.len()
                <= self.retention
        &&& self.bus.wf()
    }

    /// The entry sequence a snapshot walk yields.
    pub closed spec fn entry_seq(self) -> Seq<(SensorId, SensorSpec)> {
        entries_view(self.entries@)
    }

    /// The walk order carries each present identity exactly once, each well
    /// formed, and denotes exactly the sensor map.
    pub proof fn lemma_entry_seq(self)
        requires
            self.wf(),
        ensures
            keys_unique(self.entry_seq()),
            assoc_map(self.entry_seq()) == self@.sensors,
            forall|i: int|
                0 <= i < self.entry_seq().len() ==> (#[trigger] self.entry_seq()[i]).0.wf()
                    && self@.sensors.contains_key(self.entry_seq()[i].0)
                    && self@.sensors[self.entry_seq()[i].0] == self.entry_seq()[i].1,
    {
        assert forall|i: int|
            0 <= i < self.entry_seq().len() implies (#[trigger] self.entry_seq()[i]).0.wf()
            && self@.sensors.contains_key(self.entry_seq()[i].0)
            && self@.sensors[self.entry_seq()[i].0] == self.entry_seq()[i].1 by {
            assert(self.entry_seq()[i].0 == self.entries@[i].0);
            lemma_assoc_map_index(self.entry_seq(), i);
        }
    }

    /// Every present sensor holds at most `retention` samples.
    pub proof fn lemma_ring_bound(self, id: SensorId)
        requires
            self.wf(),
            self@.sensors.contains_key(id),
        ensures
            self@.sensors[id].values.len() <= self@.retention,
    {
        lemma_assoc_map_dom(self.entry_seq(), id);
        let i = choose|i: int|
            0 <= i < self.entry_seq().len() && (#[trigger] self.entry_seq()[i]).0 == id;
        lemma_assoc_map_index(self.entry_seq(), i);
        assert(self.entry_seq()[i].1 == self.entries@[i].1@);
    }

    pub fn new(retention: usize) -> (r: Sensors)
        ensures
            r.wf(),
            r@.sensors == Map::<SensorId, SensorSpec>::empty(),
            r@.bus == Seq::<FollowerSpec>::empty(),
            r@.retention == retention,
            r.entry_seq() == Seq::<(SensorId, SensorSpec)>::empty(),
    {
        let r = Sensors { retention, entries: Vec::new(), bus: Bus::new() };
        proof {
            assert(entries_view(r.entries@) =~= Seq::<(SensorId, SensorSpec)>::empty());
        }
        r
    }

    /// The position of an identity's entry, if it is present.
    fn find(&self, key: &SensorId) -> (r: Option<usize>)
        requires
            self.wf(),
        ensures
            match r {
                Some(i) => i < self.entry_seq().len() && self.entry_seq()[i as int].0 == *key
                    && self@.sensors.contains_key(*key) && self@.sensors[*key]
                    == self.entry_seq()[i as int].1,
                None => !self@.sensors.contains_key(*key),
            },
    {
        let ghost entries = entries_view(self.entries@);
        let mut i: usize = 0;
        while i < self.entries.len()
            invariant
                0 <= i <= self.entries@.len(),
                entries == entries_view(self.entries@),
                entries.len() == self.entries@.len(),
                keys_unique(entries),
                forall|j: int| 0 <= j < i ==> (#[trigger] entries[j]).0 != *key,
            decreases self.entries@.len() - i,
        {
            if self.entries[i].0 == *key {
                proof {
                    lemma_assoc_map_index(entries, i as int);
                }
                return Some(i);
            }
            i += 1;
        }
        proof {
            lemma_assoc_map_dom(entries, *key);
        }
        None
    }

    /// A shared view of one sensor record.
    pub fn get(&self, key: &SensorId) -> (r: Option<&Sensor>)
        requires
            self.wf(),
        ensures
            match r {
                Some(s) => self@.sensors.contains_key(*key) && s@ == self@.sensors[*key],
                None => !self@.sensors.contains_key(*key),
            },
    {
        match self.find(key) {
            Some(i) => Some(&self.entries[i].1),
            None => None,
        }
    }

    /// The newest sample of one sensor, as its bit pattern, if it has any.
    pub fn get_value(&self, key: &SensorId) -> (r: Option<u64>)
        requires
            self.wf(),
        ensures
            match r {
                Some(v) => self@.sensors.contains_key(*key) && self@.sensors[*key].values.len() > 0
                    && v == self@.sensors[*key].values[0],
                None => !self@.sensors.contains_key(*key) || self@.sensors[*key].values.len() == 0,
            },
    {
        match self.get(key) {
            Some(s) => {
                if s.values.len() > 0 {
                    Some(s.values[0])
                } else {
                    None
                }
            },
            None => None,
        }
    }

    /// A snapshot walk: every present sensor, in entry order.
    pub fn iter(&self) -> (r: Vec<(SensorId, Sensor)>)
        requires
            self.wf(),
        ensures
            r@.len() == self.entry_seq().len(),
            forall|i: int|
                0 <= i < r@.len() ==> (#[trigger] r@[i]).0 == self.entry_seq()[i].0 && r@[i].1@
                    == self.entry_seq()[i].1,
    {
        let mut out: Vec<(SensorId, Sensor)> = Vec::new();
        let mut i: usize = 0;
        while i < self.entries.len()
            invariant
                0 <= i <= self.entries@.len(),
                out@.len() == i,
                forall|j: int|
                    0 <= j < i ==> (#[trigger] out@[j]).0 == entries_view(self.entries@)[j].0
                        && out@[j].1@ == entries_view(self.entries@)[j].1,
            decreases self.entries@.len() - i,
        {
            let id = self.entries[i].0;
            let s = self.entries[i].1.clone();
            out.push((id, s));
            i += 1;
        }
        out
    }

    /// Appends an entry for an identity that is not yet present.
    fn insert_entry(&mut self, id: SensorId, s: Sensor)
        requires
            old(self).wf(),
            !old(self)@.sensors.contains_key(id),
            id.wf(),
            s@.values.len() <= old(self)@.retention,
        ensures
            final(self).wf(),
            final(self)@ == (SensorsSpec {
                sensors: old(self)@.sensors.insert(id, s@),
                ..old(self)@
            }),
            final(self).entry_seq() == old(self).entry_seq().push((id, s@)),
    {
        let ghost pre = *self;
        let ghost entries = entries_view(pre.entries@);
        self.entries.push((id, s));
        proof {
            assert(entries_view(self.entries@) =~= entries.push((id, s@)));
            lemma_assoc_map_push(entries, id, s@);
            lemma_assoc_map_dom(entries, id);
            assert forall|i2: int, j2: int|
                0 <= i2 < j2 < entries_view(self.entries@).len() implies (#[trigger] entries_view(
                self.entries@,
            )[i2]).0 != (#[trigger] entries_view(self.entries@)[j2]).0 by {
                if j2 == entries_view(self.entries@).len() - 1 {
                    assert(entries[i2].0 != id);
                }
            }
            assert forall|m: int|
                0 <= m < self.entries@.len() implies (#[trigger] self.entries@[m]).0.wf() && (
            self.entries@[m]).1@.values.len() <= self.retention by {
                if m < self.entries@.len() - 1 {
                    assert(self.entries@[m] == pre.entries@[m]);
                }
            }
            assert(self@ =~= (SensorsSpec { sensors: pre@.sensors.insert(id, s@), ..pre@ }));
        }
    }

    /// Overwrites the record in entry `i`, keeping its identity.
    fn replace_entry(&mut self, i: usize, s: Sensor)
        requires
            old(self).wf(),
            i < old(self).entry_seq().len(),
            s@.values.len() <= old(self)@.retention,
        ensures
            final(self).wf(),
            final(self)@ == (SensorsSpec {
                sensors: old(self)@.sensors.insert(old(self).entry_seq()[i as int].0, s@),
                ..old(self)@
            }),
            final(self).entry_seq() == old(self).entry_seq().update(
                i as int,
                (old(self).entry_seq()[i as int].0, s@),
            ),
    {
        let ghost pre = *self;
        let ghost entries = entries_view(pre.entries@);
        let id = self.entries[i].0;
        self.entries.set(i, (id, s));
        proof {
            assert(entries[i as int] == (pre.entries@[i as int].0, pre.entries@[i as int].1@));
            assert(entries_view(self.entries@) =~= entries.update(i as int, (id, s@)));
            lemma_assoc_map_update(entries, i as int, s@);
            let t = entries.update(i as int, (id, s@));
            assert forall|i2: int, j2: int|
                0 <= i2 < j2 < t.len() implies (#[trigger] t[i2]).0 != (#[trigger] t[j2]).0 by {
                assert(entries[i2].0 == t[i2].0 && entries[j2].0 == t[j2].0);
            }
            assert forall|m: int|
                0 <= m < self.entries@.len() implies (#[trigger] self.entries@[m]).0.wf() && (
            self.entries@[m]).1@.values.len() <= self.retention by {
                if m != i {
                    assert(self.entries@[m] == pre.entries@[m]);
                }
            }
            assert(self@ =~= (SensorsSpec { sensors: pre@.sensors.insert(id, s@), ..pre@ }));
        }
    }

    /// Publishes one event on the bus; the sensor map does not change.
    fn broadcast(&mut self, message: SensorMessage)
        requires
            old(self).wf(),
        ensures
            final(self).wf(),
            final(self)@ == (SensorsSpec {
                bus: publish_spec(old(self)@.bus, message),
                ..old(self)@
            }),
            final(self).entry_seq() == old(self).entry_seq(),
    {
        self.bus.publish(message);
        proof {
            assert(final(self)@ =~= (SensorsSpec {
                bus: publish_spec(old(self)@.bus, message),
                ..old(self)@
            }));
        }
    }

    /// Records a fresh sample: prepended to the sensor's ring, evicting the
    /// oldest sample if the ring is full, and announced as an `Update` to
    /// every subscriber with room. A NaN or negative sample, or an unknown
    /// identity, changes nothing and announces nothing.
    pub fn set(&mut self, key: &SensorId, value: u64)
        requires
            old(self).wf(),
        ensures
            final(self).wf(),
            sample_rejected(value) ==> final(self)@ == old(self)@,
            !sample_rejected(value) && !old(self)@.sensors.contains_key(*key) ==> final(self)@
                == old(self)@,
            !sample_rejected(value) && old(self)@.sensors.contains_key(*key) ==> final(self)@ == (
            SensorsSpec {
                sensors: old(self)@.sensors.insert(
                    *key,
                    SensorSpec {
                        values: push_sample(
                            old(self)@.sensors[*key].values,
                            value,
                            old(self)@.retention,
                        ),
                        ..old(self)@.sensors[*key]
                    },
                ),
                bus: publish_spec(old(self)@.bus, SensorMessage::Update(*key, value)),
                ..old(self)@
            }),
    {
        let ghost pre = *self;
        if is_sample_rejected(value) {
            return ;
        }
        match self.find(key) {
            None => {},
            Some(i) => {
                let ghost vs = pre@.sensors[*key].values;
                let mut s = self.entries[i].1.clone();
                if self.retention > 0 {
                    if s.values.len() >= self.retention {
                        s.values.pop_back();
                    }
                    s.values.push_front(value);
                }
                proof {
                    if pre.retention == 0 {
                        assert(s@.values =~= push_sample(vs, value, pre.retention));
                    } else if vs.len() < pre.retention {
                        assert(s@.values =~= push_sample(vs, value, pre.retention));
                    } else {
                        assert(s@.values == seq![value] + vs.drop_last());
                        assert(s@.values =~= push_sample(vs, value, pre.retention));
                    }
                }
                self.replace_entry(i, s);
                self.broadcast(SensorMessage::Update(*key, value));
                proof {
                    assert(final(self)@ =~= (SensorsSpec {
                        sensors: pre@.sensors.insert(
                            *key,
                            SensorSpec {
                                values: push_sample(vs, value, pre.retention),
                                ..pre@.sensors[*key]
                            },
                        ),
                        bus: publish_spec(pre@.bus, SensorMessage::Update(*key, value)),
                        ..pre@
                    }));
                }
            },
        }
    }

    /// Stores an error string on a sensor and announces it — but a repeat of
    /// the error already stored changes nothing and announces nothing.
    pub fn set_error(&mut self, key: &SensorId, error: String)
        requires
            old(self).wf(),
        ensures
            final(self).wf(),
            !old(self)@.sensors.contains_key(*key) ==> final(self)@ == old(self)@,
            old(self)@.sensors.contains_key(*key) && old(self)@.sensors[*key].error == Some(error@)
                ==> final(self)@ == old(self)@,
            old(self)@.sensors.contains_key(*key) && old(self)@.sensors[*key].error != Some(error@)
                ==> final(self)@ == (SensorsSpec {
                sensors: old(self)@.sensors.insert(
                    *key,
                    SensorSpec { error: Some(error@), ..old(self)@.sensors[*key] },
                ),
                bus: publish_spec(old(self)@.bus, SensorMessage::Error(*key)),
                ..old(self)@
            }),
    {
        let ghost pre = *self;
        match self.find(key) {
            None => {},
            Some(i) => {
                let same: bool = match &self.entries[i].1.error {
                    Some(e) => *e == error,
                    None => false,
                };
                if !same {
                    let mut s = self.entries[i].1.clone();
                    s.error = Some(error);
                    self.replace_entry(i, s);
                    self.broadcast(SensorMessage::Error(*key));
                    proof {
                        assert(final(self)@ =~= (SensorsSpec {
                            sensors: pre@.sensors.insert(
                                *key,
                                SensorSpec { error: s@.error, ..pre@.sensors[*key] },
                            ),
                            bus: publish_spec(pre@.bus, SensorMessage::Error(*key)),
                            ..pre@
                        }));
                    }
                }
            },
        }
    }

    /// Clears a sensor's error field and announces the clearing.
    pub fn clear_error(&mut self, key: &SensorId)
        requires
            old(self).wf(),
        ensures
            final(self).wf(),
            !old(self)@.sensors.contains_key(*key) ==> final(self)@ == old(self)@,
            old(self)@.sensors.contains_key(*key) ==> final(self)@ == (SensorsSpec {
                sensors: old(self)@.sensors.insert(
                    *key,
                    SensorSpec { error: None, ..old(self)@.sensors[*key] },
                ),
                bus: publish_spec(old(self)@.bus, SensorMessage::ClearError(*key)),
                ..old(self)@
            }),
    {
        let ghost pre = *self;
        match self.find(key) {
            None => {},
            Some(i) => {
                let mut s = self.entries[i].1.clone();
                s.error = None;
                self.replace_entry(i, s);
                self.broadcast(SensorMessage::ClearError(*key));
                proof {
                    assert(final(self)@ =~= (SensorsSpec {
                        sensors: pre@.sensors.insert(
                            *key,
                            SensorSpec { error: None, ..pre@.sensors[*key] },
                        ),
                        bus: publish_spec(pre@.bus, SensorMessage::ClearError(*key)),
                        ..pre@
                    }));
                }
            },
        }
    }

    /// Populates a fresh registry from the store: every built-in channel from
    /// its record or its default, then one virtual sensor per stored record,
    /// in walk order. Emits no event. Yields the loaded virtual identities,
    /// for which the caller starts one worker each.
    pub fn load_saved(&mut self, store: &Store) -> (r: Vec<SensorId>)
        requires
            old(self).wf(),
            old(self).entry_seq() == Seq::<(SensorId, SensorSpec)>::empty(),
            store.wf(),
        ensures
            final(self).wf(),
            final(self)@ == (SensorsSpec {
                sensors: boot_map_prefix(store@, store.virt_seq(), store.virt_seq().len() as int),
                ..old(self)@
            }),
            final(self).entry_seq().len() == 7 + store.virt_seq().len(),
            r@.len() == store.virt_seq().len(),
            forall|i: int|
                0 <= i < r@.len() ==> r@[i] == SensorId::Virtual(
                    (#[trigger] store.virt_seq()[i]).0,
                ),
    {
        let ghost pre = *self;
        let ghost st = store@;
        let ghost vs = store.virt_seq();
        proof {
            store.lemma_wf_virt_seq();
            assert(pre@.sensors =~= Map::<SensorId, SensorSpec>::empty());
        }
        self.load_builtin_entry(store, SensorId::Tmp0);
        self.load_builtin_entry(store, SensorId::Tmp1);
        self.load_builtin_entry(store, SensorId::Tmp2);
        self.load_builtin_entry(store, SensorId::Tmp3);
        self.load_builtin_entry(store, SensorId::RPi);
        self.load_builtin_entry(store, SensorId::RPM0);
        self.load_builtin_entry(store, SensorId::RPM1);
        proof {
            assert(self@.sensors == builtin_boot_map(st));
        }
        let mut spawned: Vec<SensorId> = Vec::new();
        let n = store.virt_count();
        let mut i: usize = 0;
        while i < n
            invariant
                0 <= i <= n,
                self.wf(),
                store.wf(),
                st == store@,
                vs == store.virt_seq(),
                n == vs.len(),
                keys_unique(vs),
                forall|j: int| 0 <= j < vs.len() ==> (#[trigger] vs[j]).0 >= 7,
                self@ == (SensorsSpec { sensors: boot_map_prefix(st, vs, i as int), ..pre@ }),
                self.entry_seq().len() == 7 + i,
                spawned@.len() == i,
                forall|j: int|
                    0 <= j < i ==> spawned@[j] == SensorId::Virtual((#[trigger] vs[j]).0),
            decreases n - i,
        {
            let entry = store.virt_entry(i);
            let id = SensorId::from_usize(entry.0);
            proof {
                assert(vs[i as int].0 >= 7);
                assert(id == SensorId::Virtual(vs[i as int].0));
                lemma_boot_prefix_dom(st, vs, i as int, id);
                if exists|j: int|
                    0 <= j < i && id == SensorId::Virtual((#[trigger] vs[j]).0) {
                    let j = choose|j: int|
                        0 <= j < i && id == SensorId::Virtual((#[trigger] vs[j]).0);
                    assert(vs[j].0 == vs[i as int].0);
                    assert(false);
                }
                assert(!self@.sensors.contains_key(id));
            }
            let s = sensor_of_record_exec(&entry.1);
            self.insert_entry(id, s);
            spawned.push(id);
            proof {
                assert(self@ =~= (SensorsSpec {
                    sensors: boot_map_prefix(st, vs, i as int + 1),
                    ..pre@
                }));
            }
            i += 1;
        }
        spawned
    }

    /// Boots one built-in channel from its stored record or its default.
    fn load_builtin_entry(&mut self, store: &Store, id: SensorId)
        requires
            old(self).wf(),
            store.wf(),
            !(id is Virtual),
            !old(self)@.sensors.contains_key(id),
        ensures
            final(self).wf(),
            final(self)@ == (SensorsSpec {
                sensors: old(self)@.sensors.insert(id, boot_builtin(store@, id)),
                ..old(self)@
            }),
            final(self).entry_seq().len() == old(self).entry_seq().len() + 1,
    {
        let s = match store.get_builtin(id.to_usize()) {
            Some(rec) => sensor_of_record_exec(rec),
            None => default_builtin_sensor(id),
        };
        self.insert_entry(id, s);
    }

    /// Deletes the entry at position `i`.
    fn remove_entry(&mut self, i: usize)
        requires
            old(self).wf(),
            i < old(self).entry_seq().len(),
        ensures
            final(self).wf(),
            final(self)@ == (SensorsSpec {
                sensors: old(self)@.sensors.remove(old(self).entry_seq()[i as int].0),
                ..old(self)@
            }),
            final(self).entry_seq() == old(self).entry_seq().remove(i as int),
    {
        let ghost pre = *self;
        let ghost entries = entries_view(pre.entries@);
        proof {
            assert(entries[i as int] == (pre.entries@[i as int].0, pre.entries@[i as int].1@));
        }
        self.entries.remove(i);
        proof {
            assert(entries_view(self.entries@) =~= entries.remove(i as int));
            lemma_assoc_map_remove(entries, i as int);
            assert forall|i2: int, j2: int|
                0 <= i2 < j2 < entries_view(self.entries@).len() implies (#[trigger] entries_view(
                self.entries@,
            )[i2]).0 != (#[trigger] entries_view(self.entries@)[j2]).0 by {
                let r = entries.remove(i as int);
                let oi = if i2 < i as int {
                    i2
                } else {
                    i2 + 1
                };
                let oj = if j2 < i as int {
                    j2
                } else {
                    j2 + 1
                };
                assert(r[i2] == entries[oi]);
                assert(r[j2] == entries[oj]);
            }
            pre.entries@.remove_ensures(i as int);
            assert forall|m: int|
                0 <= m < self.entries@.len() implies (#[trigger] self.entries@[m]).0.wf() && (
            self.entries@[m]).1@.values.len() <= self.retention by {
                if m < i as int {
                    assert(self.entries@[m] == pre.entries@[m]);
                } else {
                    assert(self.entries@[m] == pre.entries@[m + 1]);
                }
            }
            assert(self@ =~= (SensorsSpec {
                sensors: pre@.sensors.remove(entries[i as int].0),
                ..pre@
            }));
        }
    }

    /// Writes a sensor's durable fields into its namespace of the store,
    /// keyed by the identity's compact index.
    pub fn save_sensor(&self, key: &SensorId, sensor: &Sensor, store: &mut Store)
        requires
            old(store).wf(),
            key.wf(),
        ensures
            final(store).wf(),
            ({
                let rec = StoredSensorSpec {
                    alias: sensor@.alias,
                    unit: sensor@.unit,
                    rate: sensor@.rate,
                    source: sensor@.source,
                };
                if *key is Virtual {
                    final(store)@ == (StoreSpec {
                        virt: old(store)@.virt.insert(id_index(*key), rec),
                        ..old(store)@
                    })
                } else {
                    final(store)@ == (StoreSpec {
                        builtin: old(store)@.builtin.insert(id_index(*key), rec),
                        ..old(store)@
                    })
                }
            }),
    {
        let rec = StoredSensor::of_sensor(sensor);
        proof {
            assert(rec@ =~= (StoredSensorSpec {
                alias: sensor@.alias,
                unit: sensor@.unit,
                rate: sensor@.rate,
                source: sensor@.source,
            }));
        }
        if key.is_virtual() {
            store.put_virt(key.to_usize(), rec);
        } else {
            store.put_builtin(key.to_usize(), rec);
        }
    }

    /// Renames and re-describes a sensor, honouring `rate` and `source` only
    /// for a virtual one so that a client cannot corrupt a built-in poller's
    /// cadence or source; the new configuration is persisted and announced.
    pub fn reconfigure(
        &mut self,
        key: &SensorId,
        alias: String,
        unit: String,
        rate: Option<usize>,
        source: Option<String>,
        store: &mut Store,
    )
        requires
            old(self).wf(),
            old(store).wf(),
        ensures
            final(self).wf(),
            final(store).wf(),
            !old(self)@.sensors.contains_key(*key) ==> final(self)@ == old(self)@ && final(store)@
                == old(store)@,
            old(self)@.sensors.contains_key(*key) ==> ({
                let s0 = old(self)@.sensors[*key];
                let s1 = SensorSpec {
                    alias: alias@,
                    unit: unit@,
                    rate: if *key is Virtual {
                        rate_or_default(rate)
                    } else {
                        s0.rate
                    },
                    source: if *key is Virtual {
                        crate::sensor::opt_str_view(source)
                    } else {
                        s0.source
                    },
                    ..s0
                };
                let rec = StoredSensorSpec {
                    alias: s1.alias,
                    unit: s1.unit,
                    rate: s1.rate,
                    source: s1.source,
                };
                final(self)@ == (SensorsSpec {
                    sensors: old(self)@.sensors.insert(*key, s1),
                    bus: publish_spec(old(self)@.bus, SensorMessage::Config(*key)),
                    ..old(self)@
                }) && final(store)@ == (if *key is Virtual {
                    StoreSpec { virt: old(store)@.virt.insert(id_index(*key), rec), ..old(store)@ }
                } else {
                    StoreSpec {
                        builtin: old(store)@.builtin.insert(id_index(*key), rec),
                        ..old(store)@
                    }
                })
            }),
    {
        let ghost pre = *self;
        match self.find(key) {
            None => {},
            Some(i) => {
                let mut s = self.entries[i].1.clone();
                s.alias = alias;
                s.unit = unit;
                if key.is_virtual() {
                    s.rate = match rate {
                        Some(r) => r,
                        None => 1000,
                    };
                    s.source = source;
                }
                proof {
                    assert(self.entry_seq()[i as int].0.wf());
                }
                self.save_sensor(key, &s, store);
                self.replace_entry(i, s);
                self.broadcast(SensorMessage::Config(*key));
                proof {
                    let s0 = pre@.sensors[*key];
                    assert(s@ =~= (SensorSpec {
                        alias: s@.alias,
                        unit: s@.unit,
                        rate: if *key is Virtual {
                            rate_or_default(rate)
                        } else {
                            s0.rate
                        },
                        source: if *key is Virtual {
                            s@.source
                        } else {
                            s0.source
                        },
                        ..s0
                    }));
                    assert(final(self)@ =~= (SensorsSpec {
                        sensors: pre@.sensors.insert(*key, s@),
                        bus: publish_spec(pre@.bus, SensorMessage::Config(*key)),
                        ..pre@
                    }));
                }
            },
        }
    }

    /// The next free virtual identity: one past the greatest compact index
    /// present, and never below the virtual range.
    fn next_virt_id(&self) -> (r: Option<SensorId>)
        requires
            self.wf(),
        ensures
            match r {
                Some(id) => id is Virtual && id.wf() && !self@.sensors.contains_key(id) && (
                forall|k: SensorId| #[trigger]
                    self@.sensors.contains_key(k) ==> id_index(k) < id_index(id)) && (id_index(id)
                    == 7 || exists|k: SensorId|
                    #[trigger] self@.sensors.contains_key(k) && id_index(k) + 1 == id_index(id)),
                None => true,
            },
            r is None ==> exists|i: int|
                0 <= i < self.entry_seq().len() && id_index((#[trigger] self.entry_seq()[i]).0)
                    == usize::MAX,
    {
        let ghost entries = entries_view(self.entries@);
        let mut max: usize = 6;
        let mut i: usize = 0;
        while i < self.entries.len()
            invariant
                0 <= i <= self.entries@.len(),
                entries == entries_view(self.entries@),
                entries.len() == self.entries@.len(),
                max >= 6,
                forall|j: int| 0 <= j < i ==> id_index((#[trigger] entries[j]).0) <= max,
                max == 6 || exists|j: int|
                    0 <= j < i && id_index((#[trigger] entries[j]).0) == max,
            decreases self.entries@.len() - i,
        {
            proof {
                assert(entries[i as int].0 == self.entries@[i as int].0);
            }
            let t = self.entries[i].0.to_usize();
            if t > max {
                max = t;
                proof {
                    assert(id_index(entries[i as int].0) == max);
                }
            }
            i += 1;
        }
        if max == usize::MAX {
            proof {
                let j = choose|j: int| 0 <= j < i && id_index((#[trigger] entries[j]).0) == max;
                assert(0 <= j < self.entry_seq().len() && id_index(self.entry_seq()[j].0)
                    == usize::MAX);
            }
            return None;
        }
        let id = SensorId::Virtual(max + 1);
        proof {
            lemma_assoc_map_dom(entries, id);
            if self@.sensors.contains_key(id) {
                let j = choose|j: int|
                    0 <= j < entries.len() && (#[trigger] entries[j]).0 == id;
                assert(id_index(entries[j].0) <= max);
            }
            assert forall|k: SensorId| #[trigger]
                self@.sensors.contains_key(k) implies id_index(k) < id_index(id) by {
                lemma_assoc_map_dom(entries, k);
                let j = choose|j: int|
                    0 <= j < entries.len() && (#[trigger] entries[j]).0 == k;
                assert(id_index(entries[j].0) <= max);
            }
            if max != 6 {
                let j = choose|j: int|
                    0 <= j < entries.len() && id_index((#[trigger] entries[j]).0) == max;
                lemma_assoc_map_index(entries, j);
                assert(self@.sensors.contains_key(entries[j].0) && id_index(entries[j].0) + 1
                    == id_index(id));
            }
        }
        Some(id)
    }

    /// Allocates a fresh virtual sensor with the default configuration,
    /// persists it before it becomes visible, and announces it. Yields
    /// nothing only when the identity space is exhausted.
    pub fn add_virtual(&mut self, store: &mut Store) -> (r: Option<SensorId>)
        requires
            old(self).wf(),
            old(store).wf(),
        ensures
            final(self).wf(),
            final(store).wf(),
            r is None ==> final(self)@ == old(self)@ && final(store)@ == old(store)@ && exists|
                k: SensorId,
            | #[trigger] old(self)@.sensors.contains_key(k) && id_index(k) == usize::MAX,
            match r {
                Some(id) => {
                    &&& id is Virtual
                    &&& id.wf()
                    &&& !old(self)@.sensors.contains_key(id)
                    &&& forall|k: SensorId| #[trigger]
                        old(self)@.sensors.contains_key(k) ==> id_index(k) < id_index(id)
                    &&& (id_index(id) == 7 || exists|k: SensorId| #[trigger]
                        old(self)@.sensors.contains_key(k) && id_index(k) + 1 == id_index(id))
                    &&& ({
                        let s1 = SensorSpec {
                            alias: crate::sensor::virtual_alias_spec(id_index(id) as int),
                            unit: "?"@,
                            rate: 1000,
                            source: Some("sensor(0)"@),
                            values: Seq::empty(),
                            error: None,
                        };
                        let rec = StoredSensorSpec {
                            alias: s1.alias,
                            unit: s1.unit,
                            rate: s1.rate,
                            source: s1.source,
                        };
                        final(self)@ == (SensorsSpec {
                            sensors: old(self)@.sensors.insert(id, s1),
                            bus: publish_spec(old(self)@.bus, SensorMessage::Config(id)),
                            ..old(self)@
                        }) && final(store)@ == (StoreSpec {
                            virt: old(store)@.virt.insert(id_index(id), rec),
                            ..old(store)@
                        }) && final(self).entry_seq() == old(self).entry_seq().push((id, s1))
                    })
                },
                None => true,
            },
    {
        let ghost pre = *self;
        match self.next_virt_id() {
            None => {
                proof {
                    pre.lemma_entry_seq();
                    let i = choose|i: int|
                        0 <= i < pre.entry_seq().len() && id_index(
                            (#[trigger] pre.entry_seq()[i]).0,
                        ) == usize::MAX;
                    assert(pre@.sensors.contains_key(pre.entry_seq()[i].0));
                }
                None
            },
            Some(id) => {
                let n = id.to_usize();
                let alias = crate::sensor::virtual_alias(n);
                let sensor = Sensor {
                    alias,
                    values: std::collections::VecDeque::new(),
                    unit: String::from_str("?"),
                    rate: 1000,
                    source: Some(String::from_str("sensor(0)")),
                    error: None,
                };
                self.save_sensor(&id, &sensor, store);
                proof {
                    assert(sensor@ =~= (SensorSpec {
                        alias: crate::sensor::virtual_alias_spec(id_index(id) as int),
                        unit: "?"@,
                        rate: 1000,
                        source: Some("sensor(0)"@),
                        values: Seq::empty(),
                        error: None,
                    }));
                }
                self.insert_entry(id, sensor);
                self.broadcast(SensorMessage::Config(id));
                Some(id)
            },
        }
    }

    /// Deletes a virtual sensor from the registry and the store and announces
    /// its removal, on which its worker exits. A built-in or absent identity
    /// changes nothing.
    pub fn remove(&mut self, key: &SensorId, store: &mut Store)
        requires
            old(self).wf(),
            old(store).wf(),
        ensures
            final(self).wf(),
            final(store).wf(),
            !(*key is Virtual) || !old(self)@.sensors.contains_key(*key) ==> final(self)@ == old(
                self,
            )@ && final(store)@ == old(store)@,
            *key is Virtual && old(self)@.sensors.contains_key(*key) ==> final(self)@ == (
            SensorsSpec {
                sensors: old(self)@.sensors.remove(*key),
                bus: publish_spec(old(self)@.bus, SensorMessage::Remove(*key)),
                ..old(self)@
            }) && final(store)@ == (StoreSpec {
                virt: old(store)@.virt.remove(id_index(*key)),
                ..old(store)@
            }),
    {
        if !key.is_virtual() {
            return ;
        }
        match self.find(key) {
            None => {},
            Some(i) => {
                self.remove_entry(i);
                store.remove_virt(key.to_usize());
                self.broadcast(SensorMessage::Remove(*key));
            },
        }
    }

    /// Attaches a new subscriber to the bus.
    pub fn subscribe(&mut self) -> (r: Subscription)
        requires
            old(self).wf(),
        ensures
            final(self).wf(),
            r.index_spec() == old(self)@.bus.len(),
            final(self)@ == (SensorsSpec {
                bus: old(self)@.bus.push(
                    FollowerSpec { msgs: Seq::empty(), connected: true, reaped: false },
                ),
                ..old(self)@
            }),
    {
        let index = self.bus.subscribe();
        Subscription { index }
    }

    /// Takes the subscriber's oldest undelivered event, if any.
    pub fn recv(&mut self, sub: &Subscription) -> (r: Option<SensorMessage>)
        requires
            old(self).wf(),
            sub.index_spec() < old(self)@.bus.len(),
        ensures
            final(self).wf(),
            ({
                let i = sub.index_spec() as int;
                if old(self)@.bus[i].connected && old(self)@.bus[i].msgs.len() > 0 {
                    r == Some(old(self)@.bus[i].msgs[0]) && final(self)@ == (SensorsSpec {
                        bus: old(self)@.bus.update(
                            i,
                            FollowerSpec {
                                msgs: old(self)@.bus[i].msgs.drop_first(),
                                ..old(self)@.bus[i]
                            },
                        ),
                        ..old(self)@
                    })
                } else {
                    r is None && final(self)@ == old(self)@
                }
            }),
    {
        self.bus.recv(sub.index)
    }

    /// Detaches a subscriber; its slot is reclaimed by the next publish.
    pub fn unsubscribe(&mut self, sub: &Subscription)
        requires
            old(self).wf(),
            sub.index_spec() < old(self)@.bus.len(),
        ensures
            final(self).wf(),
            final(self)@ == (SensorsSpec {
                bus: old(self)@.bus.update(
                    sub.index_spec() as int,
                    FollowerSpec {
                        connected: false,
                        ..old(self)@.bus[sub.index_spec() as int]
                    },
                ),
                ..old(self)@
            }),
    {
        self.bus.unsubscribe(sub.index)
    }
}

} // verus!
