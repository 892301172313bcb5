use nino::sensor::SensorId;

#[test]
fn builtin_indices() {
    assert_eq!(SensorId::Tmp0.to_usize(), 0);
    assert_eq!(SensorId::Tmp1.to_usize(), 1);
    assert_eq!(SensorId::Tmp2.to_usize(), 2);
    assert_eq!(SensorId::Tmp3.to_usize(), 3);
    assert_eq!(SensorId::RPi.to_usize(), 4);
    assert_eq!(SensorId::RPM0.to_usize(), 5);
    assert_eq!(SensorId::RPM1.to_usize(), 6);
    assert_eq!(SensorId::Virtual(7).to_usize(), 7);
    assert_eq!(SensorId::Virtual(4096).to_usize(), 4096);
}

#[test]
fn index_round_trip_all_small() {
    for n in 0..1000usize {
        assert_eq!(SensorId::from_usize(n).to_usize(), n);
    }
    let big = usize::MAX - 1;
    assert_eq!(SensorId::from_usize(big).to_usize(), big);
}

#[test]
fn id_round_trip_builtins() {
    let builtins = [
        SensorId::Tmp0,
        SensorId::Tmp1,
        SensorId::Tmp2,
        SensorId::Tmp3,
        SensorId::RPi,
        SensorId::RPM0,
        SensorId::RPM1,
    ];
    for id in builtins {
        assert_eq!(SensorId::from_usize(id.to_usize()), id);
        assert!(!id.is_virtual());
    }
    assert_eq!(SensorId::from_usize(9), SensorId::Virtual(9));
    assert!(SensorId::Virtual(9).is_virtual());
}

#[test]
fn persisted_key_is_big_endian_index() {
    assert_eq!(SensorId::Tmp0.to_be_bytes(), [0u8; 8]);
    assert_eq!(SensorId::RPM1.to_be_bytes(), 6u64.to_be_bytes());
    assert_eq!(SensorId::Virtual(7).to_be_bytes(), 7u64.to_be_bytes());
    assert_eq!(SensorId::Virtual(70000).to_be_bytes(), 70000u64.to_be_bytes());
}

#[test]
fn virtual_alias_formatting() {
    assert_eq!(nino::sensor::u64_to_string(0), "0");
    assert_eq!(nino::sensor::u64_to_string(7), "7");
    assert_eq!(nino::sensor::u64_to_string(105), "105");
    assert_eq!(nino::sensor::u64_to_string(98765432100), "98765432100");
    assert_eq!(nino::sensor::virtual_alias(7), "Virtual(7)");
    assert_eq!(nino::sensor::virtual_alias(123), "Virtual(123)");
}
