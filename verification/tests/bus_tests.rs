use nino::bus::BUS_CAPACITY;
use nino::registry::Sensors;
use nino::sensor::{SensorId, SensorMessage};
use nino::store::Store;

fn boot() -> Sensors {
    let store = Store::new();
    let mut s = Sensors::new(100);
    s.load_saved(&store);
    s
}

#[test]
fn subscriber_sees_events_in_publication_order() {
    let mut s = boot();
    let sub = s.subscribe();
    for i in 0..10u32 {
        s.set(&SensorId::Tmp0, (i as f64).to_bits());
    }
    for i in 0..10u32 {
        assert_eq!(
            s.recv(&sub),
            Some(SensorMessage::Update(SensorId::Tmp0, (i as f64).to_bits()))
        );
    }
    assert_eq!(s.recv(&sub), None);
}

// A subscriber that never drains keeps at most the bound and loses the rest;
// a draining subscriber misses nothing (the blocked one never stalls it).
#[test]
fn blocked_subscriber_does_not_starve_others() {
    let mut s = boot();
    let blocked = s.subscribe();
    let live = s.subscribe();
    let total = BUS_CAPACITY + 10;
    for i in 0..total {
        s.set(&SensorId::Tmp0, (i as f64).to_bits());
        assert_eq!(
            s.recv(&live),
            Some(SensorMessage::Update(SensorId::Tmp0, (i as f64).to_bits())),
            "live subscriber missed event {i}"
        );
    }
    // The blocked one holds exactly the first BUS_CAPACITY events.
    for i in 0..BUS_CAPACITY {
        assert_eq!(
            s.recv(&blocked),
            Some(SensorMessage::Update(SensorId::Tmp0, (i as f64).to_bits()))
        );
    }
    assert_eq!(s.recv(&blocked), None);
}

#[test]
fn events_after_subscription_only() {
    let mut s = boot();
    s.set(&SensorId::Tmp0, 1.0f64.to_bits());
    let sub = s.subscribe();
    assert_eq!(s.recv(&sub), None);
    s.set(&SensorId::Tmp0, 2.0f64.to_bits());
    assert_eq!(
        s.recv(&sub),
        Some(SensorMessage::Update(SensorId::Tmp0, 2.0f64.to_bits()))
    );
}

#[test]
fn unsubscribed_slot_receives_nothing() {
    let mut s = boot();
    let sub = s.subscribe();
    s.unsubscribe(&sub);
    s.set(&SensorId::Tmp0, 1.0f64.to_bits());
    assert_eq!(s.recv(&sub), None);
}
