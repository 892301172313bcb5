//! The decision logic of a virtual sensor's worker.
//!
//! One worker serves one virtual sensor. It subscribes to the bus and reacts
//! to events: its own removal ends it; its own reconfiguration makes it
//! recompile and forget its dependency set; an update evaluates the script
//! only when the updater is a known dependency (or none are known yet — the
//! discovery pass) and more than the configured period has passed since the
//! last successful evaluation. The script engine itself is the caller's
//! business: the machine here says when to compile, when to evaluate, and
//! what a compile or evaluation outcome does to the state. Time is the
//! caller's monotonic clock in milliseconds.
use vstd::prelude::*;

use crate::sensor::{SensorId, SensorMessage};

verus! {

/// One worker's state: whose sensor it serves, the dependencies discovered
/// by the last evaluation, the configured period, when the last successful
/// evaluation finished, and the last compile failure, if the script does not
/// compile.
pub struct WorkerState {
    pub id: SensorId,
    pub deps: Vec<SensorId>,
    pub rate: usize,
    pub last_eval: u64,
    pub compile_err: Option<String>,
}

/// The mathematical content of a worker's state.
#[verifier::ext_equal]
pub ghost struct WorkerStateSpec {
    pub id: SensorId,
    pub deps: Seq<SensorId>,
    pub rate: usize,
    pub last_eval: u64,
    pub compile_err: Option<Seq<char>>,
}

impl View for WorkerState {
    type V = WorkerStateSpec;

    open spec fn view(&self) -> WorkerStateSpec {
        WorkerStateSpec {
            id: self.id,
            deps: self.deps@,
            rate: self.rate,
            last_eval: self.last_eval,
            compile_err: crate::sensor::opt_str_view(self.compile_err),
        }
    }
}

/// What the worker's caller must do next: end the worker, recompile the
/// script (and clear the sensor's error), run the script, surface the stored
/// compile failure as the sensor's error — or nothing.
pub enum WorkerAction {
    Exit,
    Recompile,
    Evaluate,
    ReportError(String),
    Idle,
}

/// An update qualifies while no dependencies are known (the discovery pass)
/// or when the updated sensor is a known dependency.
pub open spec fn deps_match(deps: Seq<SensorId>, s: SensorId) -> bool {
    deps.len() == 0 || deps.contains(s)
}

/// More than one period has passed since the last successful evaluation.
pub open spec fn rate_elapsed(st: WorkerStateSpec, now: u64) -> bool {
    now > st.last_eval + st.rate
}

/// An update from `s` at time `now` makes the worker run its script: the
/// updater qualifies and the period has elapsed.
pub open spec fn update_triggers(st: WorkerStateSpec, s: SensorId, now: u64) -> bool {
    deps_match(st.deps, s) && rate_elapsed(st, now)
}

impl WorkerState {
    /// A fresh worker: no dependencies known, nothing compiled yet, and the
    /// rate timer anchored at the spawn instant.
    pub fn new(id: SensorId, rate: usize, now: u64) -> (r: WorkerState)
        ensures
            r@ == (WorkerStateSpec {
                id,
                deps: Seq::empty(),
                rate,
                last_eval: now,
                compile_err: None,
            }),
    {
        let r = WorkerState { id, deps: Vec::new(), rate, last_eval: now, compile_err: None };
        proof {
            assert(r@ =~= (WorkerStateSpec {
                id,
                deps: Seq::empty(),
                rate,
                last_eval: now,
                compile_err: None,
            }));
        }
        r
    }

    /// Reacts to one bus event at time `now`.
    pub fn step(&mut self, msg: &SensorMessage, now: u64) -> (r: WorkerAction)
        ensures
            match *msg {
                SensorMessage::Remove(s) => {
                    if s == old(self)@.id {
                        r is Exit && final(self)@ == old(self)@
                    } else {
                        r is Idle && final(self)@ == old(self)@
                    }
                },
                SensorMessage::Config(s) => {
                    if s == old(self)@.id {
                        r is Recompile && final(self)@ == (WorkerStateSpec {
                            deps: Seq::empty(),
                            ..old(self)@
                        })
                    } else {
                        r is Idle && final(self)@ == old(self)@
                    }
                },
                SensorMessage::Update(s, _) => {
                    if update_triggers(old(self)@, s, now) {
                        final(self)@ == (WorkerStateSpec { deps: Seq::empty(), ..old(self)@ })
                            && (match old(self)@.compile_err {
                            Some(e) => r matches WorkerAction::ReportError(m) && m@ == e,
                            None => r is Evaluate,
                        })
                    } else {
                        r is Idle && final(self)@ == old(self)@
                    }
                },
                _ => r is Idle && final(self)@ == old(self)@,
            },
    {
        match msg {
            SensorMessage::Remove(s) => {
                if *s == self.id {
                    WorkerAction::Exit
                } else {
                    WorkerAction::Idle
                }
            },
            SensorMessage::Config(s) => {
                if *s == self.id {
                    self.deps.clear();
                    WorkerAction::Recompile
                } else {
                    WorkerAction::Idle
                }
            },
            SensorMessage::Update(s, _) => {
                let qualifies = self.deps_contain(s) && self.rate_has_elapsed(now);
                if qualifies {
                    self.deps.clear();
                    match &self.compile_err {
                        Some(e) => WorkerAction::ReportError(e.clone()),
                        None => WorkerAction::Evaluate,
                    }
                } else {
                    WorkerAction::Idle
                }
            },
            _ => WorkerAction::Idle,
        }
    }

    /// Whether an update from `s` qualifies against the known dependencies.
    fn deps_contain(&self, s: &SensorId) -> (r: bool)
        ensures
            r == deps_match(self@.deps, *s),
    {
        if self.deps.len() == 0 {
            return true;
        }
        let mut i: usize = 0;
        while i < self.deps.len()
            invariant
                0 <= i <= self.deps@.len(),
                forall|j: int| 0 <= j < i ==> self.deps@[j] != *s,
            decreases self.deps@.len() - i,
        {
            if self.deps[i] == *s {
                return true;
            }
            i += 1;
        }
        proof {
            assert(!self.deps@.contains(*s));
        }
        false
    }

    /// Whether more than one period has passed since the last successful
    /// evaluation.
    fn rate_has_elapsed(&self, now: u64) -> (r: bool)
        ensures
            r == rate_elapsed(self@, now),
    {
        now > self.last_eval && (now - self.last_eval) as u128 > self.rate as u128
    }

    /// Records the outcome of the recompilation an earlier `Recompile` asked
    /// for, together with the period the reconfiguration set.
    pub fn set_compiled(&mut self, rate: usize, err: Option<String>)
        ensures
            final(self)@ == (WorkerStateSpec {
                rate,
                compile_err: crate::sensor::opt_str_view(err),
                ..old(self)@
            }),
    {
        self.rate = rate;
        self.compile_err = err;
        proof {
            assert(final(self)@ =~= (WorkerStateSpec {
                rate: final(self)@.rate,
                compile_err: final(self)@.compile_err,
                ..old(self)@
            }));
        }
    }

    /// Records a successful evaluation finishing at time `now`: the rate timer
    /// moves to `now` and the dependencies the run discovered replace the
    /// cleared set.
    pub fn eval_ok(&mut self, now: u64, deps: Vec<SensorId>)
        ensures
            final(self)@ == (WorkerStateSpec { last_eval: now, deps: deps@, ..old(self)@ }),
    {
        self.last_eval = now;
        self.deps = deps;
        proof {
            assert(final(self)@ =~= (WorkerStateSpec {
                last_eval: now,
                deps: final(self)@.deps,
                ..old(self)@
            }));
        }
    }

    /// Records a failed evaluation: the dependencies discovered before the
    /// failure are kept, and the rate timer does not move, so the next
    /// qualifying update retries.
    pub fn eval_failed(&mut self, deps: Vec<SensorId>)
        ensures
            final(self)@ == (WorkerStateSpec { deps: deps@, ..old(self)@ }),
    {
        self.deps = deps;
        proof {
            assert(final(self)@ =~= (WorkerStateSpec { deps: final(self)@.deps, ..old(self)@ }));
        }
    }
}

/// Once dependencies are known, an update from a sensor outside them never
/// makes the worker run its script, at no time whatever: by the contract of
/// `step`, the worker answers `Idle` and stays exactly as it was.
pub proof fn lemma_trigger_gating(st: WorkerStateSpec, s: SensorId)
    requires
        st.deps.len() > 0,
        !st.deps.contains(s),
    ensures
        forall|now: u64| !update_triggers(st, s, now),
{
}

/// The worker runs its script (or surfaces its compile failure in the
/// script's place) only when more than one period has passed since the last
/// successful evaluation; `eval_ok` then moves the timer to the completion
/// instant, which is no earlier, so two successful evaluations lie more than
/// one period apart.
pub proof fn lemma_rate_limit(st: WorkerStateSpec, s: SensorId, now: u64)
    requires
        update_triggers(st, s, now),
    ensures
        now > st.last_eval + st.rate,
{
}

} // verus!
