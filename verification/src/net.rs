//! The wire protocol's framing and the per-connection session state machine.
//!
//! A frame is a little-endian 16-bit message id, a little-endian 64-bit
//! payload length, then the payload; a length above the limit is a protocol
//! error and closes the session. The session itself sends a greeting, waits
//! for the client's `Ready`, sends a full snapshot, and then translates
//! inbound frames into registry or actuator commands and bus events into
//! outbound frames. Payload encoding and decoding, and all socket work, are
//! the caller's business: the machine here consumes decoded messages and
//! yields effects.
use vstd::prelude::*;
use vstd::string::*;

use crate::pwm::{stored_duty, stored_duty_spec, PwmChannel};
use crate::sensor::{id_from_index, SensorId, SensorMessage};
use crate::store::Store;
use crate::Config;

verus! {

/// The largest payload a peer may announce: ten binary megabytes.
pub const MAX_PAYLOAD_LEN: u64 = 10 * 1024 * 1024;

#[derive(Debug, Clone, Copy, PartialEq, Eq, Structural)]
pub enum MessageId {
    Hello,
    Ready,
    Value,
    Sensors,
    SensorConfig,
    AddSensor,
    Pwm,
}

/// The code a message id travels as.
pub open spec fn message_id_code(m: MessageId) -> u16 {
    match m {
        MessageId::Hello => 0,
        MessageId::Ready => 1,
        MessageId::Value => 2,
        MessageId::Sensors => 3,
        MessageId::SensorConfig => 4,
        MessageId::AddSensor => 5,
        MessageId::Pwm => 6,
    }
}

/// The message id a code decodes to, if any.
pub open spec fn message_id_from_code(v: u16) -> Option<MessageId> {
    if v == 0 {
        Some(MessageId::Hello)
    } else if v == 1 {
        Some(MessageId::Ready)
    } else if v == 2 {
        Some(MessageId::Value)
    } else if v == 3 {
        Some(MessageId::Sensors)
    } else if v == 4 {
        Some(MessageId::SensorConfig)
    } else if v == 5 {
        Some(MessageId::AddSensor)
    } else if v == 6 {
        Some(MessageId::Pwm)
    } else {
        None
    }
}

impl MessageId {
    pub fn to_u16(self) -> (r: u16)
        ensures
            r == message_id_code(self),
    {
        match self {
            MessageId::Hello => 0,
            MessageId::Ready => 1,
            MessageId::Value => 2,
            MessageId::Sensors => 3,
            MessageId::SensorConfig => 4,
            MessageId::AddSensor => 5,
            MessageId::Pwm => 6,
        }
    }

    pub fn from_u16(v: u16) -> (r: Option<MessageId>)
        ensures
            r == message_id_from_code(v),
    {
        match v {
            0 => Some(MessageId::Hello),
            1 => Some(MessageId::Ready),
            2 => Some(MessageId::Value),
            3 => Some(MessageId::Sensors),
            4 => Some(MessageId::SensorConfig),
            5 => Some(MessageId::AddSensor),
            6 => Some(MessageId::Pwm),
            _ => None,
        }
    }
}

/// A message id's code decodes back to the id, and a decodable code encodes
/// back to itself.
pub proof fn lemma_message_id_round_trip(m: MessageId, v: u16)
    ensures
        message_id_from_code(message_id_code(m)) == Some(m),
        match message_id_from_code(v) {
            Some(n) => message_id_code(n) == v,
            None => v > 6,
        },
{
}

/// The ten header bytes announcing a frame: the id's code and the payload
/// length, each little-endian.
pub open spec fn frame_header_bytes(id: u16, len: u64) -> Seq<u8> {
    seq![
        id as u8,
        (id >> 8) as u8,
        len as u8,
        (len >> 8) as u8,
        (len >> 16) as u8,
        (len >> 24) as u8,
        (len >> 32) as u8,
        (len >> 40) as u8,
        (len >> 48) as u8,
        (len >> 56) as u8,
    ]
}

/// The value two little-endian bytes carry.
pub open spec fn u16_from_le(b0: u8, b1: u8) -> u16 {
    (b0 as u16) | ((b1 as u16) << 8)
}

/// The value eight little-endian bytes carry.
pub open spec fn u64_from_le(
    b0: u8,
    b1: u8,
    b2: u8,
    b3: u8,
    b4: u8,
    b5: u8,
    b6: u8,
    b7: u8,
) -> u64 {
    (b0 as u64) | ((b1 as u64) << 8) | ((b2 as u64) << 16) | ((b3 as u64) << 24) | ((b4 as u64)
        << 32) | ((b5 as u64) << 40) | ((b6 as u64) << 48) | ((b7 as u64) << 56)
}

/// Encodes a frame header.
pub fn encode_frame_header(id: MessageId, len: u64) -> (r: Vec<u8>)
    ensures
        r@ == frame_header_bytes(message_id_code(id), len),
        r@.len() == 10,
{
    let code = id.to_u16();
    let mut r: Vec<u8> = Vec::new();
    r.push(code as u8);
    r.push((code >> 8) as u8);
    r.push(len as u8);
    r.push((len >> 8) as u8);
    r.push((len >> 16) as u8);
    r.push((len >> 24) as u8);
    r.push((len >> 32) as u8);
    r.push((len >> 40) as u8);
    r.push((len >> 48) as u8);
    r.push((len >> 56) as u8);
    proof {
        assert(r@ =~= frame_header_bytes(message_id_code(id), len));
    }
    r
}

/// Decodes a frame header into the announced id code and payload length.
pub fn parse_frame_header(b: &Vec<u8>) -> (r: (u16, u64))
    requires
        b@.len() == 10,
    ensures
        r.0 == u16_from_le(b@[0], b@[1]),
        r.1 == u64_from_le(b@[2], b@[3], b@[4], b@[5], b@[6], b@[7], b@[8], b@[9]),
{
    let id: u16 = (b[0] as u16) | ((b[1] as u16) << 8);
    let len: u64 = (b[2] as u64) | ((b[3] as u64) << 8) | ((b[4] as u64) << 16) | ((b[5] as u64)
        << 24) | ((b[6] as u64) << 32) | ((b[7] as u64) << 40) | ((b[8] as u64) << 48) | ((
    b[9] as u64) << 56);
    (id, len)
}

/// Parsing an encoded header recovers the id code and the length.
pub proof fn lemma_frame_header_round_trip(id: u16, len: u64)
    ensures
        ({
            let h = frame_header_bytes(id, len);
            u16_from_le(h[0], h[1]) == id && u64_from_le(
                h[2],
                h[3],
                h[4],
                h[5],
                h[6],
                h[7],
                h[8],
                h[9],
            ) == len
        }),
{
    assert((id as u8) as u16 | (((id >> 8) as u8) as u16) << 8 == id) by (bit_vector);
    assert((len as u8) as u64 | (((len >> 8) as u8) as u64) << 8 | (((len >> 16) as u8) as u64)
        << 16 | (((len >> 24) as u8) as u64) << 24 | (((len >> 32) as u8) as u64) << 32 | (((len
        >> 40) as u8) as u64) << 40 | (((len >> 48) as u8) as u64) << 48 | (((len
        >> 56) as u8) as u64) << 56 == len) by (bit_vector);
}

/// Whether an announced payload length is acceptable.
pub fn payload_len_ok(len: u64) -> (r: bool)
    ensures
        r == (len <= MAX_PAYLOAD_LEN),
{
    len <= MAX_PAYLOAD_LEN
}

/// The fields of the greeting a session opens with: the protocol version,
/// the instance name, the history bound, and the channels' last persisted
/// set-points (their defaults on a blank store), as single-precision bit
/// patterns.
pub struct HelloInfo {
    pub version: String,
    pub name: String,
    pub retention: u32,
    pub pwm0: u32,
    pub pwm1: u32,
}

/// Builds the greeting from the instance settings and the store.
pub fn make_hello(config: &Config, store: &Store) -> (r: HelloInfo)
    ensures
        r.version@ == "0.0.1"@,
        r.name@ == config.name@,
        r.retention == config.retention as u32,
        r.pwm0 == stored_duty_spec(store@, PwmChannel::Pwm0),
        r.pwm1 == stored_duty_spec(store@, PwmChannel::Pwm1),
{
    HelloInfo {
        version: String::from_str("0.0.1"),
        name: config.name.clone(),
        retention: config.retention as u32,
        pwm0: stored_duty(store, &PwmChannel::Pwm0),
        pwm1: stored_duty(store, &PwmChannel::Pwm1),
    }
}

/// A decoded inbound frame, as far as the session cares: the client's
/// readiness mark, the three commands, or anything else, which is tolerated
/// and ignored.
pub enum Inbound {
    Ready,
    SensorConfig { id: u32, alias: String, unit: String, rate: Option<u32>, source: Option<String> },
    AddSensor,
    Pwm { channel: u32, value: u32 },
    Other,
}

/// Where a session stands: greeting sent and waiting for `Ready`, streaming,
/// or closed after a protocol violation.
#[derive(Debug, Clone, Copy, PartialEq, Eq, Structural)]
pub enum SessionState {
    AwaitReady,
    Streaming,
    Closed,
}

/// What the caller must do after feeding the session one input: send a full
/// snapshot, send one value frame, mutate the registry, enqueue an actuator
/// command — or nothing.
pub enum SessionEffect {
    SendSensors,
    SendValue(SensorId, u64),
    Reconfigure { id: SensorId, alias: String, unit: String, rate: Option<usize>, source: Option<String> },
    AddVirtual,
    PwmSet { channel: PwmChannel, value: u32 },
    Nothing,
}

impl SessionEffect {
    /// The shape of an effect, with the carried strings reduced to views, so
    /// contracts can pin the whole effect down.
    pub open spec fn describes_config(
        self,
        id: SensorId,
        alias: Seq<char>,
        unit: Seq<char>,
        rate: Option<usize>,
        source: Option<Seq<char>>,
    ) -> bool {
        match self {
            SessionEffect::Reconfigure { id: i, alias: a, unit: u, rate: r, source: s } => {
                i == id && a@ == alias && u@ == unit && r == rate
                    && crate::sensor::opt_str_view(s) == source
            },
            _ => false,
        }
    }
}

/// The rate a wire configuration names, converted to the registry's unit.
pub open spec fn rate_of_wire(rate: Option<u32>) -> Option<usize> {
    match rate {
        Some(r) => Some(r as usize),
        None => None,
    }
}

/// Feeds the session one decoded inbound frame. Before the client is ready,
/// only `Ready` is acceptable and answered with a snapshot; anything else
/// closes the session. While streaming, the three commands map to their
/// effects — a set-point for a channel other than 0 or 1 is ignored, as is
/// every other message.
pub fn session_on_frame(state: SessionState, msg: Inbound) -> (r: (
    SessionState,
    SessionEffect,
))
    ensures
        state == SessionState::AwaitReady ==> (match msg {
            Inbound::Ready => r.0 == SessionState::Streaming && r.1 == SessionEffect::SendSensors,
            _ => r.0 == SessionState::Closed && r.1 == SessionEffect::Nothing,
        }),
        state == SessionState::Streaming ==> r.0 == SessionState::Streaming && (match msg {
            Inbound::SensorConfig { id, alias, unit, rate, source } => r.1.describes_config(
                id_from_index(id as usize),
                alias@,
                unit@,
                rate_of_wire(rate),
                crate::sensor::opt_str_view(source),
            ),
            Inbound::AddSensor => r.1 == SessionEffect::AddVirtual,
            Inbound::Pwm { channel, value } => {
                if channel == 0 {
                    r.1 == (SessionEffect::PwmSet { channel: PwmChannel::Pwm0, value })
                } else if channel == 1 {
                    r.1 == (SessionEffect::PwmSet { channel: PwmChannel::Pwm1, value })
                } else {
                    r.1 == SessionEffect::Nothing
                }
            },
            _ => r.1 == SessionEffect::Nothing,
        }),
        state == SessionState::Closed ==> r.0 == SessionState::Closed && r.1
            == SessionEffect::Nothing,
{
    match state {
        SessionState::AwaitReady => {
            match msg {
                Inbound::Ready => (SessionState::Streaming, SessionEffect::SendSensors),
                _ => (SessionState::Closed, SessionEffect::Nothing),
            }
        },
        SessionState::Streaming => {
            let effect = match msg {
                Inbound::SensorConfig { id, alias, unit, rate, source } => {
                    let wide: Option<usize> = match rate {
                        Some(r) => Some(r as usize),
                        None => None,
                    };
                    SessionEffect::Reconfigure {
                        id: SensorId::from_usize(id as usize),
                        alias,
                        unit,
                        rate: wide,
                        source,
                    }
                },
                Inbound::AddSensor => SessionEffect::AddVirtual,
                Inbound::Pwm { channel, value } => {
                    if channel == 0 {
                        SessionEffect::PwmSet { channel: PwmChannel::Pwm0, value }
                    } else if channel == 1 {
                        SessionEffect::PwmSet { channel: PwmChannel::Pwm1, value }
                    } else {
                        SessionEffect::Nothing
                    }
                },
                _ => SessionEffect::Nothing,
            };
            (SessionState::Streaming, effect)
        },
        SessionState::Closed => (SessionState::Closed, SessionEffect::Nothing),
    }
}

/// Feeds the session one bus event. While streaming, an update becomes one
/// value frame, a configuration change, error or error clearing triggers a
/// fresh snapshot, and a removal is covered by the next snapshot; before the
/// client is ready nothing is sent.
pub fn session_on_event(state: SessionState, m: SensorMessage) -> (r: SessionEffect)
    ensures
        state == SessionState::Streaming ==> (match m {
            SensorMessage::Update(id, v) => r == SessionEffect::SendValue(id, v),
            SensorMessage::Config(_) => r == SessionEffect::SendSensors,
            SensorMessage::Error(_) => r == SessionEffect::SendSensors,
            SensorMessage::ClearError(_) => r == SessionEffect::SendSensors,
            SensorMessage::Remove(_) => r == SessionEffect::Nothing,
        }),
        state != SessionState::Streaming ==> r == SessionEffect::Nothing,
{
    match state {
        SessionState::Streaming => match m {
            SensorMessage::Update(id, v) => SessionEffect::SendValue(id, v),
            SensorMessage::Config(_) => SessionEffect::SendSensors,
            SensorMessage::Error(_) => SessionEffect::SendSensors,
            SensorMessage::ClearError(_) => SessionEffect::SendSensors,
            SensorMessage::Remove(_) => SessionEffect::Nothing,
        },
        _ => SessionEffect::Nothing,
    }
}

} // verus!
