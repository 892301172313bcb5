use nino::net::make_hello;
use nino::pwm::{
    apply_set_point, clamp_duty_bits, duty_from_be_bytes, duty_to_be_bytes, stored_duty,
    PwmChannel, DEFAULT_PWM0_BITS, DEFAULT_PWM1_BITS, F32_ONE_BITS,
};
use nino::store::Store;
use nino::Config;

#[test]
fn bit_constants_encode_the_documented_defaults() {
    assert_eq!(F32_ONE_BITS, 1.0f32.to_bits());
    assert_eq!(DEFAULT_PWM0_BITS, 0.6f32.to_bits());
    assert_eq!(DEFAULT_PWM1_BITS, 0.28f32.to_bits());
}

// The bit-level clamp agrees with clamping the encoded float into [0, 1].
#[test]
fn clamp_matches_float_semantics() {
    let cases: [f32; 10] = [0.0, -0.0, 0.5, 1.0, 1.7, 100.0, -0.3, f32::INFINITY,
        f32::NEG_INFINITY, 1e-10];
    for v in cases {
        let clamped = f64::from(f32::from_bits(clamp_duty_bits(v.to_bits())));
        let expected = f64::from(v.clamp(0.0, 1.0));
        assert!(
            clamped == expected || (clamped == 0.0 && expected == 0.0),
            "disagrees on {v}: {clamped} vs {expected}"
        );
    }
    // A NaN set-point carries no duty and is applied as zero.
    assert_eq!(clamp_duty_bits(f32::NAN.to_bits()), 0);
}

#[test]
fn overlarge_duty_clamps_to_one() {
    assert_eq!(clamp_duty_bits(1.7f32.to_bits()), 1.0f32.to_bits());
}

// A 1.7 set-point on channel 1 persists and applies as exactly 1.0, and the
// next greeting reports it.
#[test]
fn setpoint_clamped_persisted_and_reported() {
    let mut store = Store::new();
    let applied = apply_set_point(&mut store, &PwmChannel::Pwm1, 1.7f32.to_bits());
    assert_eq!(applied, 1.0f32.to_bits());
    assert_eq!(stored_duty(&store, &PwmChannel::Pwm1), 1.0f32.to_bits());
    assert_eq!(
        duty_to_be_bytes(stored_duty(&store, &PwmChannel::Pwm1)),
        1.0f32.to_be_bytes()
    );
    let cfg = Config { name: String::from("bench"), retention: 100 };
    let hello = make_hello(&cfg, &store);
    assert_eq!(hello.pwm1, 1.0f32.to_bits());
    assert_eq!(hello.pwm0, 0.6f32.to_bits());
}

#[test]
fn hello_reports_defaults_on_blank_store() {
    let store = Store::new();
    let cfg = Config { name: String::from("bench"), retention: 100 };
    let hello = make_hello(&cfg, &store);
    assert_eq!(hello.version, "0.0.1");
    assert_eq!(hello.name, "bench");
    assert_eq!(hello.retention, 100);
    assert_eq!(f32::from_bits(hello.pwm0), 0.6);
    assert_eq!(f32::from_bits(hello.pwm1), 0.28);
}

#[test]
fn duty_bytes_round_trip() {
    for v in [0.0f32, 0.28, 0.6, 1.0, 1.7] {
        let b = duty_to_be_bytes(v.to_bits());
        assert_eq!(b, v.to_bits().to_be_bytes());
        assert_eq!(duty_from_be_bytes(b[0], b[1], b[2], b[3]), v.to_bits());
    }
}

#[test]
fn channels_persist_independently() {
    let mut store = Store::new();
    apply_set_point(&mut store, &PwmChannel::Pwm0, 0.4f32.to_bits());
    assert_eq!(stored_duty(&store, &PwmChannel::Pwm0), 0.4f32.to_bits());
    assert_eq!(stored_duty(&store, &PwmChannel::Pwm1), 0.28f32.to_bits());
}
