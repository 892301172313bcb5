//! The event bus: one broadcast point, many subscribers, each behind a
//! bounded queue.
//!
//! Publishing never blocks and never fails: a subscriber whose queue is full
//! simply misses that message, a subscriber whose receiving side is gone is
//! reaped during the publish that notices it, and neither affects what any
//! other subscriber receives.
use vstd::prelude::*;

use crate::sensor::SensorMessage;

use std::collections::VecDeque;

verus! {

/// How many undelivered messages one subscriber may accumulate.
pub const BUS_CAPACITY: usize = 25;

/// The mathematical content of one subscriber slot: its pending messages,
/// oldest first; whether the receiving side is still attached; and whether a
/// publish has already reclaimed the slot.
#[verifier::ext_equal]
pub ghost struct FollowerSpec {
    pub msgs: Seq<SensorMessage>,
    pub connected: bool,
    pub reaped: bool,
}

/// One subscriber slot.
pub struct Follower {
    queue: VecDeque<SensorMessage>,
    connected: bool,
    reaped: bool,
}

impl View for Follower {
    type V = FollowerSpec;

    closed spec fn view(&self) -> FollowerSpec {
        FollowerSpec { msgs: self.queue@, connected: self.connected, reaped: self.reaped }
    }
}

/// What publishing `m` does to one subscriber slot: a detached slot is
/// reclaimed; a live slot with room gets the message appended; a full slot
/// is left alone, dropping the message for that subscriber only.
pub open spec fn publish_one(f: FollowerSpec, m: SensorMessage) -> FollowerSpec {
    if !f.connected {
        FollowerSpec { msgs: Seq::empty(), connected: false, reaped: true }
    } else if f.msgs.len() < BUS_CAPACITY {
        FollowerSpec { msgs: f.msgs.push(m), ..f }
    } else {
        f
    }
}

/// What publishing `m` does to the whole subscriber list: each slot changes
/// independently of every other.
pub open spec fn publish_spec(bus: Seq<FollowerSpec>, m: SensorMessage) -> Seq<FollowerSpec> {
    bus.map_values(|f: FollowerSpec| publish_one(f, m))
}

/// The broadcast point.
pub struct Bus {
    followers: Vec<Follower>,
}

impl View for Bus {
    type V = Seq<FollowerSpec>;

    closed spec fn view(&self) -> Seq<FollowerSpec> {
        self.followers@.map_values(|f: Follower| f@)
    }
}

impl Bus {
    /// No queue ever exceeds the bound, and a reclaimed slot is empty and
    /// detached.
    pub open spec fn wf(self) -> bool {
        forall|i: int|
            0 <= i < self@.len() ==> (#[trigger] self@[i]).msgs.len() <= BUS_CAPACITY && (
            self@[i].reaped ==> !self@[i].connected && self@[i].msgs.len() == 0)
    }

    pub fn new() -> (r: Bus)
        ensures
            r.wf(),
            r@ == Seq::<FollowerSpec>::empty(),
    {
        let r = Bus { followers: Vec::new() };
        proof {
            assert(r@ =~= Seq::<FollowerSpec>::empty());
        }
        r
    }

    /// Attaches a new subscriber and hands back its slot index.
    pub fn subscribe(&mut self) -> (r: usize)
        requires
            old(self).wf(),
        ensures
            final(self).wf(),
            r == old(self)@.len(),
            final(self)@ == old(self)@.push(
                FollowerSpec { msgs: Seq::empty(), connected: true, reaped: false },
            ),
    {
        let r = self.followers.len();
        self.followers.push(
            Follower { queue: VecDeque::new(), connected: true, reaped: false },
        );
        proof {
            assert(self@ =~= old(self)@.push(
                FollowerSpec { msgs: Seq::empty(), connected: true, reaped: false },
            ));
        }
        r
    }

    /// Detaches the subscriber in slot `i`; the slot is reclaimed by the next
    /// publish.
    pub fn unsubscribe(&mut self, i: usize)
        requires
            old(self).wf(),
            i < old(self)@.len(),
        ensures
            final(self).wf(),
            final(self)@ == old(self)@.update(
                i as int,
                FollowerSpec { connected: false, ..old(self)@[i as int] },
            ),
    {
        let ghost pre = *self;
        let old_f = self.followers.remove(i);
        self.followers.insert(
            i,
            Follower { queue: old_f.queue, connected: false, reaped: old_f.reaped },
        );
        proof {
            assert(self.followers@ =~= pre.followers@.update(
                i as int,
                Follower {
                    queue: pre.followers@[i as int].queue,
                    connected: false,
                    reaped: pre.followers@[i as int].reaped,
                },
            ));
            assert(self@ =~= pre@.update(
                i as int,
                FollowerSpec { connected: false, ..pre@[i as int] },
            ));
        }
    }

    /// Publishes one message: appended for every attached subscriber with
    /// room, dropped for a full one, and detached slots are reclaimed.
    pub fn publish(&mut self, m: SensorMessage)
        requires
            old(self).wf(),
        ensures
            final(self).wf(),
            final(self)@ == publish_spec(old(self)@, m),
    {
        let ghost pre = *self;
        let n = self.followers.len();
        let mut i: usize = 0;
        while i < n
            invariant
                0 <= i <= n,
                pre.wf(),
                n == pre.followers@.len(),
                self.followers@.len() == n,
                forall|j: int|
                    i <= j < n ==> (#[trigger] self.followers@[j]) == pre.followers@[j],
                forall|j: int|
                    0 <= j < i ==> (#[trigger] self.followers@[j])@ == publish_one(pre@[j], m),
            decreases n - i,
        {
            proof {
                assert(self.followers@[i as int] == pre.followers@[i as int]);
                assert(pre@[i as int] == pre.followers@[i as int]@);
            }
            if !self.followers[i].connected {
                let nf = Follower { queue: VecDeque::new(), connected: false, reaped: true };
                self.followers.set(i, nf);
            } else if self.followers[i].queue.len() < BUS_CAPACITY {
                let mut q = self.followers[i].queue.clone();
                q.push_back(m);
                let was_reaped = self.followers[i].reaped;
                let nf = Follower { queue: q, connected: true, reaped: was_reaped };
                self.followers.set(i, nf);
            }
            i += 1;
        }
        proof {
            assert(self@ =~= publish_spec(pre@, m));
        }
    }

    /// Takes the oldest pending message of the subscriber in slot `i`, if it
    /// is attached and has one.
    pub fn recv(&mut self, i: usize) -> (r: Option<SensorMessage>)
        requires
            old(self).wf(),
            i < old(self)@.len(),
        ensures
            final(self).wf(),
            if old(self)@[i as int].connected && old(self)@[i as int].msgs.len() > 0 {
                r == Some(old(self)@[i as int].msgs[0]) && final(self)@ == old(self)@.update(
                    i as int,
                    FollowerSpec {
                        msgs: old(self)@[i as int].msgs.drop_first(),
                        ..old(self)@[i as int]
                    },
                )
            } else {
                r is None && final(self)@ == old(self)@
            },
    {
        let ghost pre = *self;
        if !self.followers[i].connected {
            return None;
        }
        let mut f = self.followers.remove(i);
        let front = f.queue.pop_front();
        let result_is_some: bool = match &front {
            Some(_) => true,
            None => false,
        };
        self.followers.insert(i, f);
        proof {
            pre.followers@.remove_ensures(i as int);
            let rem = pre.followers@.remove(i as int);
            rem.insert_ensures(i as int, f);
            let fin = rem.insert(i as int, f);
            assert(self.followers@ == fin);
            let target = if result_is_some {
                pre@.update(
                    i as int,
                    FollowerSpec { msgs: pre@[i as int].msgs.drop_first(), ..pre@[i as int] },
                )
            } else {
                pre@
            };
            assert forall|j: int| 0 <= j < pre@.len() implies self@[j] == target[j] by {
                if j < i as int {
                    assert(fin[j] == rem[j]);
                    assert(rem[j] == pre.followers@[j]);
                } else if j == i as int {
                    assert(fin[j] == f);
                } else {
                    assert(fin[j] == rem[j - 1]);
                    assert(rem[j - 1] == pre.followers@[j]);
                }
            }
            assert(self@ =~= target);
        }
        front
    }

    /// How many subscriber slots exist (reclaimed ones included).
    pub fn len(&self) -> (r: usize)
        ensures
            r == self@.len(),
    {
        self.followers.len()
    }
}

/// One subscriber's fate under a publish depends only on its own slot: a
/// subscriber that is attached and has room receives the message, whatever
/// any other slot — full, detached or reclaimed — looks like.
pub proof fn lemma_subscriber_independence(
    bus: Seq<FollowerSpec>,
    m: SensorMessage,
    i: int,
    j: int,
    other: FollowerSpec,
)
    requires
        0 <= i < bus.len(),
        0 <= j < bus.len(),
        i != j,
        bus[j].connected,
        bus[j].msgs.len() < BUS_CAPACITY,
    ensures
        publish_spec(bus, m)[j].msgs == bus[j].msgs.push(m),
        publish_spec(bus.update(i, other), m)[j] == publish_spec(bus, m)[j],
{
    assert(bus.update(i, other)[j] == bus[j]);
}

} // verus!
