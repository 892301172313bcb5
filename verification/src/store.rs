//! In-memory model of the durable key–value store.
//!
//! Two namespaces hold sensor configuration — one for the built-in channels,
//! one for the virtual ones — keyed by the sensor's compact index; two root
//! keys hold the last applied PWM duty cycles as IEEE-754 single-precision
//! bit patterns. A stored sensor record carries only the durable fields: the
//! sample history and the error field are volatile and never stored. The
//! surrounding process mirrors every mutation of this model to disk.
use vstd::prelude::*;

use crate::kv::{assoc_map, keys_unique, lemma_assoc_map_dom, lemma_assoc_map_index,
    lemma_assoc_map_push, lemma_assoc_map_remove, lemma_assoc_map_update};
use crate::sensor::Sensor;

verus! {

/// The durable fields of a sensor record.
pub struct StoredSensor {
    pub alias: String,
    pub unit: String,
    pub rate: usize,
    pub source: Option<String>,
}

/// The mathematical content of a `StoredSensor`.
#[verifier::ext_equal]
pub ghost struct StoredSensorSpec {
    pub alias: Seq<char>,
    pub unit: Seq<char>,
    pub rate: usize,
    pub source: Option<Seq<char>>,
}

impl View for StoredSensor {
    type V = StoredSensorSpec;

    open spec fn view(&self) -> StoredSensorSpec {
        StoredSensorSpec {
            alias: self.alias@,
            unit: self.unit@,
            rate: self.rate,
            source: match self.source {
                Some(s) => Some(s@),
                None => None,
            },
        }
    }
}

impl Clone for StoredSensor {
    fn clone(&self) -> (r: Self)
        ensures
            r@ == self@,
    {
        StoredSensor {
            alias: self.alias.clone(),
            unit: self.unit.clone(),
            rate: self.rate,
            source: crate::sensor::clone_opt_string(&self.source),
        }
    }
}

impl StoredSensor {
    /// The durable projection of a live sensor record.
    pub open spec fn projects(self, s: crate::sensor::SensorSpec) -> bool {
        self@.alias == s.alias && self@.unit == s.unit && self@.rate == s.rate && self@.source
            == s.source
    }

    /// Extracts the durable fields of a live sensor record.
    pub fn of_sensor(s: &Sensor) -> (r: StoredSensor)
        ensures
            r.projects(s@),
    {
        StoredSensor {
            alias: s.alias.clone(),
            unit: s.unit.clone(),
            rate: s.rate,
            source: crate::sensor::clone_opt_string(&s.source),
        }
    }
}

/// The sequence of key–record pairs a namespace denotes.
pub open spec fn ns_view(v: Seq<(usize, StoredSensor)>) -> Seq<(usize, StoredSensorSpec)> {
    v.map_values(|p: (usize, StoredSensor)| (p.0, p.1@))
}

/// The mathematical content of the store: each namespace as a map, and the
/// two PWM root keys.
#[verifier::ext_equal]
pub ghost struct StoreSpec {
    pub builtin: Map<usize, StoredSensorSpec>,
    pub virt: Map<usize, StoredSensorSpec>,
    pub pwm0: Option<u32>,
    pub pwm1: Option<u32>,
}

/// The persistent store, modelled in memory.
pub struct Store {
    builtin: Vec<(usize, StoredSensor)>,
    virt: Vec<(usize, StoredSensor)>,
    pwm0: Option<u32>,
    pwm1: Option<u32>,
}

impl View for Store {
    type V = StoreSpec;

    closed spec fn view(&self) -> StoreSpec {
        StoreSpec {
            builtin: assoc_map(ns_view(self.builtin@)),
            virt: assoc_map(ns_view(self.virt@)),
            pwm0: self.pwm0,
            pwm1: self.pwm1,
        }
    }
}

impl Store {
    /// Every key appears once; built-in keys lie in the range reserved for
    /// built-ins, virtual keys above it.
    pub closed spec fn wf(self) -> bool {
        &&& keys_unique(ns_view(self.builtin@))
        &&& keys_unique(ns_view(self.virt@))
        &&& forall|i: int|
            0 <= i < self.builtin@.len() ==> (#[trigger] self.builtin@[i]).0 <= 6
        &&& forall|i: int| 0 <= i < self.virt@.len() ==> (#[trigger] self.virt@[i]).0 >= 7
    }

    /// The virtual namespace as the ordered entry sequence the store walks at
    /// startup.
    pub closed spec fn virt_seq(self) -> Seq<(usize, StoredSensorSpec)> {
        ns_view(self.virt@)
    }

    /// In a well-formed store, the startup walk of the virtual namespace
    /// carries pairwise distinct keys, all above the built-in range, and
    /// denotes exactly the virtual namespace of the store's content.
    pub proof fn lemma_wf_virt_seq(self)
        requires
            self.wf(),
        ensures
            keys_unique(self.virt_seq()),
            forall|i: int|
                0 <= i < self.virt_seq().len() ==> (#[trigger] self.virt_seq()[i]).0 >= 7,
            assoc_map(self.virt_seq()) == self@.virt,
    {
    }

    pub fn new() -> (r: Store)
        ensures
            r.wf(),
            r@.builtin == Map::<usize, StoredSensorSpec>::empty(),
            r@.virt == Map::<usize, StoredSensorSpec>::empty(),
            r@.pwm0 is None,
            r@.pwm1 is None,
            r.virt_seq() == Seq::<(usize, StoredSensorSpec)>::empty(),
    {
        let r = Store { builtin: Vec::new(), virt: Vec::new(), pwm0: None, pwm1: None };
        proof {
            assert(ns_view(r.builtin@) =~= Seq::<(usize, StoredSensorSpec)>::empty());
            assert(ns_view(r.virt@) =~= Seq::<(usize, StoredSensorSpec)>::empty());
        }
        r
    }

    pub fn get_pwm0(&self) -> (r: Option<u32>)
        ensures
            r == self@.pwm0,
    {
        self.pwm0
    }

    pub fn get_pwm1(&self) -> (r: Option<u32>)
        ensures
            r == self@.pwm1,
    {
        self.pwm1
    }

    pub fn set_pwm0(&mut self, bits: u32)
        ensures
            final(self)@ == (StoreSpec { pwm0: Some(bits), ..old(self)@ }),
            final(self).wf() == old(self).wf(),
            final(self).virt_seq() == old(self).virt_seq(),
    {
        self.pwm0 = Some(bits);
    }

    pub fn set_pwm1(&mut self, bits: u32)
        ensures
            final(self)@ == (StoreSpec { pwm1: Some(bits), ..old(self)@ }),
            final(self).wf() == old(self).wf(),
            final(self).virt_seq() == old(self).virt_seq(),
    {
        self.pwm1 = Some(bits);
    }

    pub fn get_builtin(&self, key: usize) -> (r: Option<&StoredSensor>)
        requires
            self.wf(),
        ensures
            match r {
                Some(rec) => self@.builtin.contains_key(key) && rec@ == self@.builtin[key],
                None => !self@.builtin.contains_key(key),
            },
    {
        Self::ns_get(&self.builtin, key)
    }

    pub fn get_virt(&self, key: usize) -> (r: Option<&StoredSensor>)
        requires
            self.wf(),
        ensures
            match r {
                Some(rec) => self@.virt.contains_key(key) && rec@ == self@.virt[key],
                None => !self@.virt.contains_key(key),
            },
    {
        Self::ns_get(&self.virt, key)
    }

    fn ns_get(ns: &Vec<(usize, StoredSensor)>, key: usize) -> (r: Option<&StoredSensor>)
        requires
            keys_unique(ns_view(ns@)),
        ensures
            match r {
                Some(rec) => assoc_map(ns_view(ns@)).contains_key(key) && rec@ == assoc_map(
                    ns_view(ns@),
                )[key],
                None => !assoc_map(ns_view(ns@)).contains_key(key),
            },
    {
        let ghost entries = ns_view(ns@);
        let mut i: usize = 0;
        while i < ns.len()
            invariant
                0 <= i <= ns.len(),
                entries == ns_view(ns@),
                entries.len() == ns@.len(),
                keys_unique(entries),
                forall|j: int| 0 <= j < i ==> (#[trigger] entries[j]).0 != key,
            decreases ns.len() - i,
        {
            if ns[i].0 == key {
                proof {
                    lemma_assoc_map_index(entries, i as int);
                }
                return Some(&ns[i].1);
            }
            i += 1;
        }
        proof {
            lemma_assoc_map_dom(entries, key);
        }
        None
    }

    fn ns_put(ns: &mut Vec<(usize, StoredSensor)>, key: usize, rec: StoredSensor)
        requires
            keys_unique(ns_view(old(ns)@)),
        ensures
            keys_unique(ns_view(final(ns)@)),
            assoc_map(ns_view(final(ns)@)) == assoc_map(ns_view(old(ns)@)).insert(key, rec@),
            forall|i: int|
                0 <= i < final(ns)@.len() ==> (#[trigger] final(ns)@[i]).0 == key || exists|j: int|
                    0 <= j < old(ns)@.len() && (#[trigger] old(ns)@[j]).0 == final(ns)@[i].0,
    {
        let ghost entries = ns_view(old(ns)@);
        let mut i: usize = 0;
        while i < ns.len()
            invariant
                0 <= i <= ns.len(),
                ns@ == old(ns)@,
                entries == ns_view(ns@),
                entries.len() == ns@.len(),
                keys_unique(entries),
                forall|j: int| 0 <= j < i ==> (#[trigger] entries[j]).0 != key,
            decreases ns.len() - i,
        {
            if ns[i].0 == key {
                proof {
                    assert(entries[i as int] == (ns@[i as int].0, ns@[i as int].1@));
                }
                ns.set(i, (key, rec));
                proof {
                    assert(ns_view(ns@) =~= entries.update(i as int, (key, rec@)));
                    lemma_assoc_map_update(entries, i as int, rec@);
                    let t = entries.update(i as int, (key, rec@));
                    assert forall|i2: int, j2: int|
                        0 <= i2 < j2 < t.len() implies (#[trigger] t[i2]).0 != (
                    #[trigger] t[j2]).0 by {
                        assert(entries[i2].0 == t[i2].0 && entries[j2].0 == t[j2].0);
                    }
                    assert forall|m: int|
                        0 <= m < ns@.len() implies (#[trigger] ns@[m]).0 == key || exists|j: int|
                        0 <= j < old(ns)@.len() && (#[trigger] old(ns)@[j]).0 == ns@[m].0 by {
                        if m != i {
                            assert(old(ns)@[m].0 == ns@[m].0);
                        }
                    }
                }
                return ;
            }
            i += 1;
        }
        ns.push((key, rec));
        proof {
            assert(ns_view(ns@) =~= entries.push((key, rec@)));
            lemma_assoc_map_push(entries, key, rec@);
            lemma_assoc_map_dom(entries, key);
            assert forall|i2: int, j2: int|
                0 <= i2 < j2 < ns_view(ns@).len() implies (#[trigger] ns_view(ns@)[i2]).0 != (
            #[trigger] ns_view(ns@)[j2]).0 by {
                if j2 == ns_view(ns@).len() - 1 {
                    assert(entries[i2].0 != key);
                }
            }
            assert forall|m: int|
                0 <= m < ns@.len() implies (#[trigger] ns@[m]).0 == key || exists|j: int|
                0 <= j < old(ns)@.len() && (#[trigger] old(ns)@[j]).0 == ns@[m].0 by {
                if m < ns@.len() - 1 {
                    assert(old(ns)@[m].0 == ns@[m].0);
                }
            }
        }
    }

    /// Writes a built-in sensor's durable record.
    pub fn put_builtin(&mut self, key: usize, rec: StoredSensor)
        requires
            old(self).wf(),
            key <= 6,
        ensures
            final(self).wf(),
            final(self)@ == (StoreSpec {
                builtin: old(self)@.builtin.insert(key, rec@),
                ..old(self)@
            }),
            final(self).virt_seq() == old(self).virt_seq(),
    {
        Self::ns_put(&mut self.builtin, key, rec);
        assert(final(self)@ =~= (StoreSpec {
            builtin: old(self)@.builtin.insert(key, rec@),
            ..old(self)@
        }));
    }

    /// Writes a virtual sensor's durable record.
    pub fn put_virt(&mut self, key: usize, rec: StoredSensor)
        requires
            old(self).wf(),
            key >= 7,
        ensures
            final(self).wf(),
            final(self)@ == (StoreSpec { virt: old(self)@.virt.insert(key, rec@), ..old(self)@ }),
    {
        Self::ns_put(&mut self.virt, key, rec);
        assert(final(self)@ =~= (StoreSpec {
            virt: old(self)@.virt.insert(key, rec@),
            ..old(self)@
        }));
    }

    /// Deletes a virtual sensor's durable record, if present.
    pub fn remove_virt(&mut self, key: usize)
        requires
            old(self).wf(),
        ensures
            final(self).wf(),
            final(self)@ == (StoreSpec { virt: old(self)@.virt.remove(key), ..old(self)@ }),
    {
        let ghost pre = *self;
        let ghost entries = ns_view(pre.virt@);
        match Self::ns_find(&self.virt, key) {
            Some(i) => {
                proof {
                    assert(entries[i as int] == (self.virt@[i as int].0, self.virt@[i as int].1@));
                }
                self.virt.remove(i);
                proof {
                    assert(ns_view(self.virt@) =~= entries.remove(i as int));
                    lemma_assoc_map_remove(entries, i as int);
                    assert forall|i2: int, j2: int|
                        0 <= i2 < j2 < ns_view(self.virt@).len() implies (#[trigger] ns_view(
                        self.virt@,
                    )[i2]).0 != (#[trigger] ns_view(self.virt@)[j2]).0 by {
                        let r = entries.remove(i as int);
                        let oi = if i2 < i as int { i2 } else { i2 + 1 };
                        let oj = if j2 < i as int { j2 } else { j2 + 1 };
                        assert(r[i2] == entries[oi]);
                        assert(r[j2] == entries[oj]);
                    }
                    pre.virt@.remove_ensures(i as int);
                    assert(self.virt@ == pre.virt@.remove(i as int));
                    assert forall|m: int|
                        0 <= m < self.virt@.len() implies (#[trigger] self.virt@[m]).0 >= 7 by {
                        if m < i as int {
                            assert(self.virt@[m] == pre.virt@[m]);
                            assert(pre.virt@[m].0 >= 7);
                        } else {
                            assert(self.virt@[m] == pre.virt@[m + 1]);
                            assert(pre.virt@[m + 1].0 >= 7);
                        }
                    }
                    assert(self@ =~= (StoreSpec { virt: pre@.virt.remove(key), ..pre@ }));
                }
            },
            None => {
                proof {
                    assert(pre@.virt.remove(key) =~= pre@.virt);
                    assert(self@ =~= (StoreSpec { virt: pre@.virt.remove(key), ..pre@ }));
                }
            },
        }
    }

    /// The position of a key's entry in a namespace, if it has one.
    fn ns_find(ns: &Vec<(usize, StoredSensor)>, key: usize) -> (r: Option<usize>)
        requires
            keys_unique(ns_view(ns@)),
        ensures
            match r {
                Some(i) => i < ns@.len() && ns_view(ns@)[i as int].0 == key,
                None => !assoc_map(ns_view(ns@)).contains_key(key),
            },
    {
        let ghost entries = ns_view(ns@);
        let mut i: usize = 0;
        while i < ns.len()
            invariant
                0 <= i <= ns.len(),
                entries == ns_view(ns@),
                entries.len() == ns@.len(),
                forall|j: int| 0 <= j < i ==> (#[trigger] entries[j]).0 != key,
            decreases ns.len() - i,
        {
            if ns[i].0 == key {
                return Some(i);
            }
            i += 1;
        }
        proof {
            lemma_assoc_map_dom(entries, key);
        }
        None
    }

    /// How many virtual records the store holds.
    pub fn virt_count(&self) -> (r: usize)
        ensures
            r == self.virt_seq().len(),
    {
        self.virt.len()
    }

    /// The virtual record at position `i` of the startup walk.
    pub fn virt_entry(&self, i: usize) -> (r: (usize, StoredSensor))
        requires
            i < self.virt_seq().len(),
        ensures
            r.0 == self.virt_seq()[i as int].0,
            r.1@ == self.virt_seq()[i as int].1,
    {
        let p = &self.virt[i];
        (p.0, p.1.clone())
    }
}

} // verus!
