use std::cell::RefCell;
use std::rc::Rc;

use nino::registry::Sensors;
use nino::sensor::{SensorId, SensorMessage};
use nino::store::Store;
use nino::virt::{WorkerAction, WorkerState};

fn upd(id: SensorId) -> SensorMessage {
    SensorMessage::Update(id, 20.0f64.to_bits())
}

#[test]
fn discovery_pass_evaluates_on_any_update() {
    let mut w = WorkerState::new(SensorId::Virtual(7), 1000, 0);
    // No dependencies known yet: any update after the period triggers.
    assert!(matches!(w.step(&upd(SensorId::RPM0), 1001), WorkerAction::Evaluate));
}

// Once dependencies are known, an update from outside them does not
// re-evaluate, however much time has passed.
#[test]
fn trigger_gating_by_dependencies() {
    let mut w = WorkerState::new(SensorId::Virtual(7), 1000, 0);
    assert!(matches!(w.step(&upd(SensorId::Tmp0), 1001), WorkerAction::Evaluate));
    w.eval_ok(1500, vec![SensorId::Tmp0]);
    assert!(matches!(w.step(&upd(SensorId::Tmp1), 9_000_000), WorkerAction::Idle));
    assert!(matches!(w.step(&upd(SensorId::Tmp0), 9_000_000), WorkerAction::Evaluate));
}

// At most one evaluation per period, even under a burst of qualifying
// updates.
#[test]
fn rate_limiting_under_burst() {
    let mut w = WorkerState::new(SensorId::Virtual(7), 1000, 0);
    assert!(matches!(w.step(&upd(SensorId::Tmp0), 500), WorkerAction::Idle));
    assert!(matches!(w.step(&upd(SensorId::Tmp0), 1000), WorkerAction::Idle));
    assert!(matches!(w.step(&upd(SensorId::Tmp0), 1001), WorkerAction::Evaluate));
    w.eval_ok(1002, vec![SensorId::Tmp0]);
    for t in [1003u64, 1500, 2000, 2002] {
        assert!(matches!(w.step(&upd(SensorId::Tmp0), t), WorkerAction::Idle));
    }
    assert!(matches!(w.step(&upd(SensorId::Tmp0), 2003), WorkerAction::Evaluate));
}

#[test]
fn failed_evaluation_retries_without_waiting() {
    let mut w = WorkerState::new(SensorId::Virtual(7), 1000, 0);
    assert!(matches!(w.step(&upd(SensorId::Tmp0), 1001), WorkerAction::Evaluate));
    w.eval_failed(vec![SensorId::Tmp0]);
    // The timer did not move: the next qualifying update evaluates again.
    assert!(matches!(w.step(&upd(SensorId::Tmp0), 1002), WorkerAction::Evaluate));
}

#[test]
fn removal_ends_the_worker() {
    let mut w = WorkerState::new(SensorId::Virtual(7), 1000, 0);
    assert!(matches!(
        w.step(&SensorMessage::Remove(SensorId::Virtual(8)), 1), WorkerAction::Idle
    ));
    assert!(matches!(
        w.step(&SensorMessage::Remove(SensorId::Virtual(7)), 1), WorkerAction::Exit
    ));
}

#[test]
fn reconfiguration_recompiles_and_forgets_dependencies() {
    let mut w = WorkerState::new(SensorId::Virtual(7), 1000, 0);
    assert!(matches!(w.step(&upd(SensorId::Tmp0), 1001), WorkerAction::Evaluate));
    w.eval_ok(1001, vec![SensorId::Tmp0]);
    assert!(matches!(
        w.step(&SensorMessage::Config(SensorId::Virtual(8)), 1002), WorkerAction::Idle
    ));
    assert!(matches!(
        w.step(&SensorMessage::Config(SensorId::Virtual(7)), 1002), WorkerAction::Recompile
    ));
    w.set_compiled(500, None);
    // Dependencies were cleared: a foreign update now qualifies again.
    assert!(matches!(w.step(&upd(SensorId::RPM1), 2000), WorkerAction::Evaluate));
}

#[test]
fn compile_failure_is_reported_instead_of_evaluating() {
    let mut w = WorkerState::new(SensorId::Virtual(7), 1000, 0);
    w.set_compiled(1000, Some(String::from("syntax error")));
    match w.step(&upd(SensorId::Tmp0), 1001) {
        WorkerAction::ReportError(e) => assert_eq!(e, "syntax error"),
        _ => panic!("expected the stored compile failure"),
    }
    w.set_compiled(1000, None);
    assert!(matches!(w.step(&upd(SensorId::Tmp0), 2002), WorkerAction::Evaluate));
}

// The averaging scenario, with the real script engine doing the evaluation
// the worker machine asks for: a virtual sensor averaging two probes lands
// at 25.0 and subscribers see the update.
#[test]
fn script_average_of_two_probes() {
    let mut store = Store::new();
    let mut sensors = Sensors::new(100);
    sensors.load_saved(&store);
    sensors.set(&SensorId::Tmp0, 20.0f64.to_bits());
    sensors.set(&SensorId::Tmp1, 30.0f64.to_bits());

    let id = sensors.add_virtual(&mut store).expect("a fresh virtual identity");
    assert_eq!(id, SensorId::Virtual(7));
    let mut worker = WorkerState::new(id, 1000, 0);
    assert!(matches!(
        worker.step(&upd(SensorId::Tmp0), 1500), WorkerAction::Evaluate
    ));

    // What the worker's caller does on `Evaluate`: run the script against the
    // registry, recording which sensors it read.
    let snapshot: Vec<(usize, u64)> = sensors
        .iter()
        .iter()
        .filter_map(|(sid, s)| s.values.front().map(|v| (sid.to_usize(), *v)))
        .collect();
    let deps: Rc<RefCell<Vec<usize>>> = Rc::new(RefCell::new(Vec::new()));
    let deps_in_script = deps.clone();
    let mut engine = rhai::Engine::new();
    engine.register_fn("sensor", move |n: i64| -> f64 {
        let n = n as usize;
        let v = snapshot
            .iter()
            .find(|(sid, _)| *sid == n)
            .map(|(_, bits)| f64::from_bits(*bits))
            .unwrap_or(f64::NAN);
        deps_in_script.borrow_mut().push(n);
        v
    });
    let ast = engine.compile("(sensor(0)+sensor(1))/2").expect("script compiles");
    let value: f64 = engine.eval_ast(&ast).expect("script evaluates");
    assert_eq!(value, 25.0);

    let discovered: Vec<SensorId> = deps
        .borrow()
        .iter()
        .map(|n| SensorId::from_usize(*n))
        .collect();
    assert_eq!(discovered, vec![SensorId::Tmp0, SensorId::Tmp1]);
    worker.eval_ok(1600, discovered);

    let sub = sensors.subscribe();
    sensors.set(&id, value.to_bits());
    assert_eq!(sensors.get_value(&id), Some(25.0f64.to_bits()));
    assert_eq!(
        sensors.recv(&sub),
        Some(SensorMessage::Update(id, 25.0f64.to_bits()))
    );

    // The discovered dependencies now restrict re-evaluation.
    assert!(matches!(
        worker.step(&upd(SensorId::RPM0), 90_000), WorkerAction::Idle
    ));
}
