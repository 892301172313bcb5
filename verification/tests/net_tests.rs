use nino::net::{
    encode_frame_header, parse_frame_header, payload_len_ok, session_on_event, session_on_frame,
    Inbound, MessageId, SessionEffect, SessionState, MAX_PAYLOAD_LEN,
};
use nino::pwm::PwmChannel;
use nino::sensor::{SensorId, SensorMessage};

#[test]
fn message_id_codes_round_trip() {
    let all = [
        MessageId::Hello,
        MessageId::Ready,
        MessageId::Value,
        MessageId::Sensors,
        MessageId::SensorConfig,
        MessageId::AddSensor,
        MessageId::Pwm,
    ];
    for (i, id) in all.iter().enumerate() {
        assert_eq!(id.to_u16(), i as u16);
        assert_eq!(MessageId::from_u16(i as u16), Some(*id));
    }
    assert_eq!(MessageId::from_u16(7), None);
    assert_eq!(MessageId::from_u16(u16::MAX), None);
}

#[test]
fn frame_header_layout_and_round_trip() {
    let h = encode_frame_header(MessageId::Value, 12);
    // Little-endian id then little-endian length, ten bytes in all.
    assert_eq!(h, vec![2, 0, 12, 0, 0, 0, 0, 0, 0, 0]);
    let (id, len) = parse_frame_header(&h);
    assert_eq!(id, 2);
    assert_eq!(len, 12);

    let h = encode_frame_header(MessageId::Pwm, 0xDEAD_BEEF_0BAD_F00D);
    let (id, len) = parse_frame_header(&h);
    assert_eq!(id, 6);
    assert_eq!(len, 0xDEAD_BEEF_0BAD_F00D);
}

#[test]
fn payload_limit_is_ten_binary_megabytes() {
    assert_eq!(MAX_PAYLOAD_LEN, 10 * 1024 * 1024);
    assert!(payload_len_ok(0));
    assert!(payload_len_ok(MAX_PAYLOAD_LEN));
    assert!(!payload_len_ok(MAX_PAYLOAD_LEN + 1));
    assert!(!payload_len_ok(u64::MAX));
}

// The handshake: Ready is answered with a snapshot; anything else closes.
#[test]
fn handshake_requires_ready() {
    let (st, eff) = session_on_frame(SessionState::AwaitReady, Inbound::Ready);
    assert_eq!(st, SessionState::Streaming);
    assert!(matches!(eff, SessionEffect::SendSensors));

    let (st, eff) = session_on_frame(SessionState::AwaitReady, Inbound::AddSensor);
    assert_eq!(st, SessionState::Closed);
    assert!(matches!(eff, SessionEffect::Nothing));

    let (st, eff) = session_on_frame(SessionState::Closed, Inbound::Ready);
    assert_eq!(st, SessionState::Closed);
    assert!(matches!(eff, SessionEffect::Nothing));
}

#[test]
fn streaming_dispatches_commands() {
    let (st, eff) = session_on_frame(SessionState::Streaming, Inbound::AddSensor);
    assert_eq!(st, SessionState::Streaming);
    assert!(matches!(eff, SessionEffect::AddVirtual));

    let (_, eff) = session_on_frame(
        SessionState::Streaming,
        Inbound::SensorConfig {
            id: 7,
            alias: String::from("hot_avg"),
            unit: String::from("°C"),
            rate: None,
            source: Some(String::from("(sensor(0)+sensor(1))/2")),
        },
    );
    match eff {
        SessionEffect::Reconfigure { id, alias, unit, rate, source } => {
            assert_eq!(id, SensorId::Virtual(7));
            assert_eq!(alias, "hot_avg");
            assert_eq!(unit, "°C");
            assert_eq!(rate, None);
            assert_eq!(source.as_deref(), Some("(sensor(0)+sensor(1))/2"));
        }
        _ => panic!("expected a reconfiguration effect"),
    }

    // A later Ready, or an unknown message, is tolerated and ignored.
    let (st, eff) = session_on_frame(SessionState::Streaming, Inbound::Ready);
    assert_eq!(st, SessionState::Streaming);
    assert!(matches!(eff, SessionEffect::Nothing));
    let (_, eff) = session_on_frame(SessionState::Streaming, Inbound::Other);
    assert!(matches!(eff, SessionEffect::Nothing));
}

#[test]
fn pwm_channels_outside_zero_and_one_are_ignored() {
    let v = 1.7f32.to_bits();
    let (_, eff) = session_on_frame(
        SessionState::Streaming,
        Inbound::Pwm { channel: 1, value: v },
    );
    match eff {
        SessionEffect::PwmSet { channel, value } => {
            assert_eq!(channel, PwmChannel::Pwm1);
            assert_eq!(value, v);
        }
        _ => panic!("expected a set-point effect"),
    }
    let (_, eff) = session_on_frame(
        SessionState::Streaming,
        Inbound::Pwm { channel: 2, value: v },
    );
    assert!(matches!(eff, SessionEffect::Nothing));
}

#[test]
fn events_translate_to_frames_only_while_streaming() {
    let up = SensorMessage::Update(SensorId::Tmp0, 22.0f64.to_bits());
    match session_on_event(SessionState::Streaming, up) {
        SessionEffect::SendValue(id, bits) => {
            assert_eq!(id, SensorId::Tmp0);
            assert_eq!(f64::from_bits(bits), 22.0);
        }
        _ => panic!("expected a value frame"),
    }
    assert!(matches!(
        session_on_event(SessionState::Streaming, SensorMessage::Config(SensorId::Tmp0)),
        SessionEffect::SendSensors
    ));
    assert!(matches!(
        session_on_event(SessionState::Streaming, SensorMessage::Error(SensorId::Tmp0)),
        SessionEffect::SendSensors
    ));
    assert!(matches!(
        session_on_event(SessionState::Streaming, SensorMessage::ClearError(SensorId::Tmp0)),
        SessionEffect::SendSensors
    ));
    assert!(matches!(
        session_on_event(SessionState::Streaming, SensorMessage::Remove(SensorId::Virtual(7))),
        SessionEffect::Nothing
    ));
    assert!(matches!(
        session_on_event(SessionState::AwaitReady, up),
        SessionEffect::Nothing
    ));
}
