use nino::registry::Sensors;
use nino::sensor::{SensorId, SensorMessage};
use nino::store::Store;

fn ring_of(s: &Sensors, id: SensorId) -> Vec<f64> {
    s.get(&id)
        .expect("sensor present")
        .values
        .iter()
        .map(|b| f64::from_bits(*b))
        .collect()
}

fn boot(retention: usize) -> (Sensors, Store) {
    let store = Store::new();
    let mut sensors = Sensors::new(retention);
    let spawned = sensors.load_saved(&store);
    assert!(spawned.is_empty());
    (sensors, store)
}

// Boot with empty disk, retention 3; four samples leave exactly the newest
// three, newest first.
#[test]
fn ring_keeps_newest_three() {
    let (mut s, _store) = boot(3);
    s.set(&SensorId::Tmp0, 22.0f64.to_bits());
    s.set(&SensorId::Tmp0, 23.0f64.to_bits());
    s.set(&SensorId::Tmp0, 24.0f64.to_bits());
    s.set(&SensorId::Tmp0, 25.0f64.to_bits());
    assert_eq!(ring_of(&s, SensorId::Tmp0), vec![25.0, 24.0, 23.0]);
}

#[test]
fn ring_bound_holds_under_many_sets() {
    let (mut s, _store) = boot(5);
    for i in 0..100u32 {
        s.set(&SensorId::Tmp1, (i as f64).to_bits());
    }
    let ring = ring_of(&s, SensorId::Tmp1);
    assert_eq!(ring, vec![99.0, 98.0, 97.0, 96.0, 95.0]);
}

// A NaN or negative sample leaves the registry and the bus untouched.
#[test]
fn invalid_samples_are_dropped_silently() {
    let (mut s, _store) = boot(3);
    let sub = s.subscribe();
    s.set(&SensorId::Tmp0, f64::NAN.to_bits());
    s.set(&SensorId::Tmp0, (-1.0f64).to_bits());
    s.set(&SensorId::Tmp0, f64::NEG_INFINITY.to_bits());
    assert!(ring_of(&s, SensorId::Tmp0).is_empty());
    assert_eq!(s.recv(&sub), None);
    s.set(&SensorId::Tmp0, 22.0f64.to_bits());
    assert_eq!(
        s.recv(&sub),
        Some(SensorMessage::Update(SensorId::Tmp0, 22.0f64.to_bits()))
    );
}

#[test]
fn unknown_identity_is_ignored() {
    let (mut s, _store) = boot(3);
    let sub = s.subscribe();
    s.set(&SensorId::Virtual(42), 1.0f64.to_bits());
    assert!(s.get(&SensorId::Virtual(42)).is_none());
    assert_eq!(s.recv(&sub), None);
}

// Two identical error strings in a row emit exactly one Error event.
#[test]
fn error_dedup_emits_once() {
    let (mut s, _store) = boot(3);
    let sub = s.subscribe();
    s.set_error(&SensorId::Tmp0, String::from("i2c transfer failed"));
    s.set_error(&SensorId::Tmp0, String::from("i2c transfer failed"));
    assert_eq!(s.recv(&sub), Some(SensorMessage::Error(SensorId::Tmp0)));
    assert_eq!(s.recv(&sub), None);
    assert_eq!(
        s.get(&SensorId::Tmp0).unwrap().error.as_deref(),
        Some("i2c transfer failed")
    );
    s.set_error(&SensorId::Tmp0, String::from("another failure"));
    assert_eq!(s.recv(&sub), Some(SensorMessage::Error(SensorId::Tmp0)));
}

#[test]
fn clear_error_announces() {
    let (mut s, _store) = boot(3);
    s.set_error(&SensorId::Tmp0, String::from("boom"));
    let sub = s.subscribe();
    s.clear_error(&SensorId::Tmp0);
    assert_eq!(s.recv(&sub), Some(SensorMessage::ClearError(SensorId::Tmp0)));
    assert_eq!(s.get(&SensorId::Tmp0).unwrap().error, None);
}

#[test]
fn defaults_on_blank_disk() {
    let (s, _store) = boot(100);
    assert_eq!(s.iter().len(), 7);
    let tmp0 = s.get(&SensorId::Tmp0).unwrap();
    assert_eq!(tmp0.alias, "Tmp0");
    assert_eq!(tmp0.unit, "°C");
    assert_eq!(tmp0.rate, 1000);
    assert_eq!(tmp0.source, None);
    assert!(tmp0.values.is_empty());
    let rpi = s.get(&SensorId::RPi).unwrap();
    assert_eq!(rpi.alias, "RPi");
    assert_eq!(rpi.rate, 3000);
    let rpm1 = s.get(&SensorId::RPM1).unwrap();
    assert_eq!(rpm1.alias, "Rpm1");
    assert_eq!(rpm1.unit, "RPM");
    assert_eq!(rpm1.rate, 6000);
}

// A fresh virtual sensor: id 7, the documented defaults, an eighth snapshot
// entry, and it survives a restart.
#[test]
fn add_virtual_defaults_and_restart() {
    let (mut s, mut store) = boot(100);
    let id = s.add_virtual(&mut store).expect("identity space not exhausted");
    assert_eq!(id, SensorId::Virtual(7));
    assert_eq!(s.iter().len(), 8);
    let v = s.get(&id).unwrap();
    assert_eq!(v.alias, "Virtual(7)");
    assert_eq!(v.unit, "?");
    assert_eq!(v.rate, 1000);
    assert_eq!(v.source.as_deref(), Some("sensor(0)"));

    let mut restarted = Sensors::new(100);
    let spawned = restarted.load_saved(&store);
    assert_eq!(spawned, vec![SensorId::Virtual(7)]);
    assert_eq!(restarted.iter().len(), 8);
    let v = restarted.get(&id).unwrap();
    assert_eq!(v.alias, "Virtual(7)");
    assert_eq!(v.source.as_deref(), Some("sensor(0)"));
}

#[test]
fn add_virtual_allocates_above_every_index() {
    let (mut s, mut store) = boot(100);
    assert_eq!(s.add_virtual(&mut store), Some(SensorId::Virtual(7)));
    assert_eq!(s.add_virtual(&mut store), Some(SensorId::Virtual(8)));
    s.remove(&SensorId::Virtual(7), &mut store);
    // Indices are never reused below the maximum ever present.
    assert_eq!(s.add_virtual(&mut store), Some(SensorId::Virtual(9)));
}

// Reconfiguration persists, and after a restart the reconfigured fields come
// back with an empty history and no error.
#[test]
fn reconfigure_round_trips_through_store() {
    let (mut s, mut store) = boot(100);
    let id = s.add_virtual(&mut store).unwrap();
    s.reconfigure(
        &id,
        String::from("hot_avg"),
        String::from("°C"),
        Some(2000),
        Some(String::from("(sensor(0)+sensor(1))/2")),
        &mut store,
    );
    s.set(&id, 25.0f64.to_bits());
    s.set_error(&id, String::from("transient"));

    let mut restarted = Sensors::new(100);
    restarted.load_saved(&store);
    let v = restarted.get(&id).unwrap();
    assert_eq!(v.alias, "hot_avg");
    assert_eq!(v.unit, "°C");
    assert_eq!(v.rate, 2000);
    assert_eq!(v.source.as_deref(), Some("(sensor(0)+sensor(1))/2"));
    assert!(v.values.is_empty());
    assert_eq!(v.error, None);
}

// A built-in keeps its cadence and source whatever a client sends.
#[test]
fn reconfigure_builtin_ignores_rate_and_source() {
    let (mut s, mut store) = boot(100);
    s.reconfigure(
        &SensorId::Tmp0,
        String::from("intake"),
        String::from("K"),
        Some(50),
        Some(String::from("sensor(1)")),
        &mut store,
    );
    let t = s.get(&SensorId::Tmp0).unwrap();
    assert_eq!(t.alias, "intake");
    assert_eq!(t.unit, "K");
    assert_eq!(t.rate, 1000);
    assert_eq!(t.source, None);

    let mut restarted = Sensors::new(100);
    restarted.load_saved(&store);
    let t = restarted.get(&SensorId::Tmp0).unwrap();
    assert_eq!(t.alias, "intake");
    assert_eq!(t.rate, 1000);
}

#[test]
fn reconfigure_unknown_is_ignored() {
    let (mut s, mut store) = boot(100);
    let sub = s.subscribe();
    s.reconfigure(
        &SensorId::Virtual(9),
        String::from("x"),
        String::from("y"),
        None,
        None,
        &mut store,
    );
    assert_eq!(s.recv(&sub), None);
    assert!(store.get_virt(9).is_none());
}

#[test]
fn remove_deletes_and_announces() {
    let (mut s, mut store) = boot(100);
    let id = s.add_virtual(&mut store).unwrap();
    let sub = s.subscribe();
    s.remove(&id, &mut store);
    assert!(s.get(&id).is_none());
    assert!(store.get_virt(7).is_none());
    assert_eq!(s.recv(&sub), Some(SensorMessage::Remove(id)));
    // Built-ins cannot be removed.
    s.remove(&SensorId::Tmp0, &mut store);
    assert!(s.get(&SensorId::Tmp0).is_some());
}

#[test]
fn get_value_returns_newest() {
    let (mut s, _store) = boot(3);
    assert_eq!(s.get_value(&SensorId::Tmp0), None);
    s.set(&SensorId::Tmp0, 1.5f64.to_bits());
    s.set(&SensorId::Tmp0, 2.5f64.to_bits());
    assert_eq!(s.get_value(&SensorId::Tmp0), Some(2.5f64.to_bits()));
}

#[test]
fn retention_zero_stores_nothing_but_announces() {
    let (mut s, _store) = boot(0);
    let sub = s.subscribe();
    s.set(&SensorId::Tmp0, 22.0f64.to_bits());
    assert!(ring_of(&s, SensorId::Tmp0).is_empty());
    assert_eq!(
        s.recv(&sub),
        Some(SensorMessage::Update(SensorId::Tmp0, 22.0f64.to_bits()))
    );
}

#[test]
fn restart_spawns_a_worker_per_stored_virtual() {
    let (mut s, mut store) = boot(100);
    assert_eq!(s.add_virtual(&mut store), Some(SensorId::Virtual(7)));
    assert_eq!(s.add_virtual(&mut store), Some(SensorId::Virtual(8)));

    let mut restarted = Sensors::new(100);
    let spawned = restarted.load_saved(&store);
    assert_eq!(spawned, vec![SensorId::Virtual(7), SensorId::Virtual(8)]);
    assert_eq!(restarted.iter().len(), 9);
}
