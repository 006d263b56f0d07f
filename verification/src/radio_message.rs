//! Normalizing decoded wire frames into application messages.
//!
//! `classify` is pure and stateless: one frame in, one normalized message or
//! one typed error out.  Every failure is a value; nothing here panics or
//! aborts the stream.

use vstd::prelude::*;

use crate::bytes::{ascii_chars, hex_diag_spec, hex_string};
use crate::wire::{
    decode_device, decode_environment, decode_position, decode_power, device_of, environment_of,
    parse_wire, position_of, power_of, utf8_lossy, utf8_lossy_of, wire_of, DeviceReading,
    EnvironmentReading, PositionReading, PowerReading, WireMessage, WireVariant, WireVariantView,
    WireView,
};

verus! {

/// Port designator of text messages.
pub const PORT_TEXT_MESSAGE: i32 = 1;

/// Port designator of position fixes.
pub const PORT_POSITION: i32 = 3;

/// Port designator of telemetry readings.
pub const PORT_TELEMETRY: i32 = 67;

/// The closed set of ports the decoder understands; dispatch is keyed on it,
/// and a new port is a new arm.
#[derive(Clone, Copy, Debug, PartialEq, Eq)]
pub enum Port {
    TextMessage,
    Position,
    Telemetry,
}

/// Which known port a wire port designator names, if any.
pub open spec fn port_of_spec(port: i32) -> Option<Port> {
    if port == PORT_TEXT_MESSAGE {
        Some(Port::TextMessage)
    } else if port == PORT_POSITION {
        Some(Port::Position)
    } else if port == PORT_TELEMETRY {
        Some(Port::Telemetry)
    } else {
        None
    }
}

/// Map a wire port designator to the known port it names, or `None` for any
/// other port.
pub fn port_of(port: i32) -> (r: Option<Port>)
    ensures
        r == port_of_spec(port),
{
    if port == PORT_TEXT_MESSAGE {
        Some(Port::TextMessage)
    } else if port == PORT_POSITION {
        Some(Port::Position)
    } else if port == PORT_TELEMETRY {
        Some(Port::Telemetry)
    } else {
        None
    }
}

/// A normalized text message.
#[derive(Clone, Debug, PartialEq, Eq)]
pub struct TextMessage {
    pub to: Option<String>,
    pub from: Option<String>,
    pub msg: String,
}

/// A normalized telemetry reading: one of three structurally similar schemas.
/// Measured float values are carried as IEEE-754 bit patterns, untouched;
/// every field is optional, since a sensor may not have supplied it.
#[derive(Clone, Copy, Debug, PartialEq, Eq)]
pub enum Telemetry {
    Device {
        battery_level: Option<u32>,
        voltage_bits: Option<u32>,
        uptime_seconds: Option<u32>,
    },
    Environment {
        temperature_bits: Option<u32>,
        humidity_bits: Option<u32>,
        pressure_bits: Option<u32>,
    },
    Power {
        voltage_bits: Option<u32>,
        current_bits: Option<u32>,
    },
}

/// A normalized position fix.  Coordinates are fixed-point: degrees are the
/// stored value times ten to the minus seventh, so the stored value is exact.
/// Missing optional wire fields default to zero rather than failing.
#[derive(Clone, Copy, Debug, PartialEq, Eq)]
pub struct Position {
    /// Latitude, fixed-point degrees (value × 1e-7 is degrees).
    pub latitude_i: i32,
    /// Longitude, fixed-point degrees (value × 1e-7 is degrees).
    pub longitude_i: i32,
    /// Altitude in meters.
    pub altitude: i32,
    /// Accuracy in meters.
    pub accuracy: u32,
    /// Ground speed as carried on the wire.
    pub ground_speed: u32,
    /// Heading: no decode rule is known for it, so it is always zero.
    pub heading: u32,
}

/// A normalized application message.
#[derive(Clone, Debug, PartialEq, Eq)]
pub enum AppMessage {
    Telemetry(Telemetry),
    Position(Position),
    Text(TextMessage),
}

/// A classified frame: the originating node id, the port that owned the
/// payload, and the normalized message.
#[derive(Clone, Debug, PartialEq, Eq)]
pub struct RadioMessage {
    pub node_id: u32,
    pub portnum: Port,
    pub app: AppMessage,
}

/// The closed set of decode failures.  Every failure is reported, none
/// panics, and policy over them lives with the caller.
#[derive(Clone, Debug, PartialEq, Eq)]
pub enum DecodeError {
    /// The port designator names no known port; the designator is retained.
    UnsupportedPort(i32),
    /// The frame does not decode as an envelope, or the envelope is not a
    /// payload-bearing packet.
    MalformedEnvelope,
    /// The packet carries no decoded payload.
    MissingPayloadVariant,
    /// The payload parses under none of the port's schemas; the raw bytes are
    /// retained for diagnosis.
    SchemaMismatch(Vec<u8>),
    /// An id of zero marks a local control echo, not network traffic.
    LocalControlMessage,
}

impl DecodeError {
    /// For a schema mismatch, the retained raw bytes as a spaced upper-case
    /// hex diagnostic string; `None` for the other errors.
    pub fn hex_diagnostic(&self) -> (r: Option<String>)
        ensures
            match self {
                DecodeError::SchemaMismatch(raw) => r matches Some(s) && s@ == ascii_chars(
                    hex_diag_spec(raw@),
                ),
                _ => r is None,
            },
    {
        match self {
            DecodeError::SchemaMismatch(raw) => Some(hex_string(raw)),
            _ => None,
        }
    }
}

/// The telemetry tie-break.  The wire carries no discriminant between the
/// three schemas, so the first schema that parsed wins, in the fixed order
/// device, then environment, then power.
pub open spec fn telemetry_pick_spec(
    device: Option<DeviceReading>,
    environment: Option<EnvironmentReading>,
    power: Option<PowerReading>,
) -> Option<Telemetry> {
    if device is Some {
        Some(
            Telemetry::Device {
                battery_level: device.unwrap().battery_level,
                voltage_bits: device.unwrap().voltage_bits,
                uptime_seconds: device.unwrap().uptime_seconds,
            },
        )
    } else if environment is Some {
        Some(
            Telemetry::Environment {
                temperature_bits: environment.unwrap().temperature_bits,
                humidity_bits: environment.unwrap().humidity_bits,
                pressure_bits: environment.unwrap().pressure_bits,
            },
        )
    } else if power is Some {
        Some(
            Telemetry::Power {
                voltage_bits: power.unwrap().voltage_bits,
                current_bits: power.unwrap().current_bits,
            },
        )
    } else {
        None
    }
}

/// Pick the telemetry reading from the three schema decode results, in the
/// fixed priority order: device, then environment, then power; `None` when
/// none parsed.
pub fn telemetry_from_readings(
    device: Option<DeviceReading>,
    environment: Option<EnvironmentReading>,
    power: Option<PowerReading>,
) -> (r: Option<Telemetry>)
    ensures
        r == telemetry_pick_spec(device, environment, power),
{
    match device {
        Some(d) => Some(
            Telemetry::Device {
                battery_level: d.battery_level,
                voltage_bits: d.voltage_bits,
                uptime_seconds: d.uptime_seconds,
            },
        ),
        None => match environment {
            Some(e) => Some(
                Telemetry::Environment {
                    temperature_bits: e.temperature_bits,
                    humidity_bits: e.humidity_bits,
                    pressure_bits: e.pressure_bits,
                },
            ),
            None => match power {
                Some(p) => Some(
                    Telemetry::Power {
                        voltage_bits: p.voltage_bits,
                        current_bits: p.current_bits,
                    },
                ),
                None => None,
            },
        },
    }
}

/// What a telemetry payload classifies as: the tie-break applied to the three
/// schema decoders' results on the payload bytes.
pub open spec fn telemetry_of_spec(payload: Seq<u8>) -> Option<Telemetry> {
    telemetry_pick_spec(device_of(payload), environment_of(payload), power_of(payload))
}

/// Zero for a missing optional wire field.
pub open spec fn or_zero_i32(v: Option<i32>) -> i32 {
    match v {
        Some(x) => x,
        None => 0,
    }
}

/// Zero for a missing optional wire field.
pub open spec fn or_zero_u32(v: Option<u32>) -> u32 {
    match v {
        Some(x) => x,
        None => 0,
    }
}

/// The position fix a position reading normalizes to: missing optional fields
/// default to zero, and heading has no decode rule, so it is zero.
pub open spec fn position_fix_spec(p: PositionReading) -> Position {
    Position {
        latitude_i: or_zero_i32(p.latitude_i),
        longitude_i: or_zero_i32(p.longitude_i),
        altitude: or_zero_i32(p.altitude),
        accuracy: p.gps_accuracy,
        ground_speed: or_zero_u32(p.ground_speed),
        heading: 0,
    }
}

/// Normalize a position reading, defaulting missing optional fields to zero.
pub fn position_fix(p: PositionReading) -> (r: Position)
    ensures
        r == position_fix_spec(p),
{
    Position {
        latitude_i: match p.latitude_i {
            Some(v) => v,
            None => 0,
        },
        longitude_i: match p.longitude_i {
            Some(v) => v,
            None => 0,
        },
        altitude: match p.altitude {
            Some(v) => v,
            None => 0,
        },
        accuracy: p.gps_accuracy,
        ground_speed: match p.ground_speed {
            Some(v) => v,
            None => 0,
        },
        heading: 0,
    }
}

/// What classifying a payload-bearing packet must return: an exact case split
/// over the port and the schema decoders' results on the payload.
pub open spec fn classify_packet_matches(
    node_id: u32,
    port: i32,
    payload: Seq<u8>,
    r: Result<RadioMessage, DecodeError>,
) -> bool {
    match port_of_spec(port) {
        Some(Port::Telemetry) => match telemetry_of_spec(payload) {
            Some(t) => r == Ok::<RadioMessage, DecodeError>(
                (RadioMessage { node_id, portnum: Port::Telemetry, app: AppMessage::Telemetry(t) }),
            ),
            None => r matches Err(DecodeError::SchemaMismatch(raw)) && raw@ == payload,
        },
        Some(Port::Position) => match position_of(payload) {
            Some(p) => r == Ok::<RadioMessage, DecodeError>(
                (RadioMessage {
                    node_id,
                    portnum: Port::Position,
                    app: AppMessage::Position(position_fix_spec(p)),
                }),
            ),
            None => r matches Err(DecodeError::SchemaMismatch(raw)) && raw@ == payload,
        },
        Some(Port::TextMessage) => r matches Ok(m) && m.node_id == node_id && m.portnum
            == Port::TextMessage && (m.app matches AppMessage::Text(t) && t.to is None && t.from
            is None && t.msg@ == utf8_lossy_of(payload)),
        None => r == Err::<RadioMessage, DecodeError>(DecodeError::UnsupportedPort(port)),
    }
}

/// What classifying a decoded envelope must return: a control echo for id
/// zero, the packet case split for a packet, and the envelope errors
/// otherwise.
pub open spec fn classify_wire_matches(w: WireView, r: Result<RadioMessage, DecodeError>) -> bool {
    if w.id == 0 {
        r == Err::<RadioMessage, DecodeError>(DecodeError::LocalControlMessage)
    } else {
        match w.variant {
            WireVariantView::Packet { port, payload } => classify_packet_matches(
                w.id,
                port,
                payload,
                r,
            ),
            WireVariantView::OpaquePacket => r == Err::<RadioMessage, DecodeError>(
                DecodeError::MissingPayloadVariant,
            ),
            _ => r == Err::<RadioMessage, DecodeError>(DecodeError::MalformedEnvelope),
        }
    }
}

/// What classifying raw frame bytes must return: the envelope decode result
/// drives the case split, and bytes that do not decode are a malformed
/// envelope.
pub open spec fn classify_matches(
    w: Option<WireView>,
    r: Result<RadioMessage, DecodeError>,
) -> bool {
    match w {
        Some(wv) => classify_wire_matches(wv, r),
        None => r == Err::<RadioMessage, DecodeError>(DecodeError::MalformedEnvelope),
    }
}

/// Classify a payload-bearing packet by its port.
pub fn classify_packet(node_id: u32, port: i32, payload: Vec<u8>) -> (r: Result<
    RadioMessage,
    DecodeError,
>)
    ensures
        classify_packet_matches(node_id, port, payload@, r),
{
    match port_of(port) {
        Some(Port::Telemetry) => {
            let device = decode_device(payload.as_slice());
            let environment = decode_environment(payload.as_slice());
            let power = decode_power(payload.as_slice());
            match telemetry_from_readings(device, environment, power) {
                Some(t) => Ok(
                    RadioMessage {
                        node_id,
                        portnum: Port::Telemetry,
                        app: AppMessage::Telemetry(t),
                    },
                ),
                None => Err(DecodeError::SchemaMismatch(payload)),
            }
        },
        Some(Port::Position) => match decode_position(payload.as_slice()) {
            Some(p) => Ok(
                RadioMessage {
                    node_id,
                    portnum: Port::Position,
                    app: AppMessage::Position(position_fix(p)),
                },
            ),
            None => Err(DecodeError::SchemaMismatch(payload)),
        },
        Some(Port::TextMessage) => {
            let msg = utf8_lossy(payload.as_slice());
            Ok(
                RadioMessage {
                    node_id,
                    portnum: Port::TextMessage,
                    app: AppMessage::Text(TextMessage { to: None, from: None, msg }),
                },
            )
        },
        None => Err(DecodeError::UnsupportedPort(port)),
    }
}

/// Classify a decoded envelope.
pub fn classify_wire(w: WireMessage) -> (r: Result<RadioMessage, DecodeError>)
    ensures
        classify_wire_matches(w@, r),
{
    if w.id == 0 {
        return Err(DecodeError::LocalControlMessage);
    }
    match w.variant {
        WireVariant::Packet { port, payload } => classify_packet(w.id, port, payload),
        WireVariant::OpaquePacket => Err(DecodeError::MissingPayloadVariant),
        _ => Err(DecodeError::MalformedEnvelope),
    }
}

/// Classify one raw frame: parse the envelope, filter control echoes, extract
/// the packet, and dispatch on its port.  Pure, stateless, and total: every
/// failure is a typed value.
pub fn classify(frame: &Vec<u8>) -> (r: Result<RadioMessage, DecodeError>)
    ensures
        classify_matches(wire_of(frame@), r),
{
    match parse_wire(frame.as_slice()) {
        Some(w) => classify_wire(w),
        None => Err(DecodeError::MalformedEnvelope),
    }
}

/// Schema tie-break law: a reading that parses as device metrics classifies
/// as device telemetry even when other schemas also parse; environment
/// classifies exactly when device failed; power exactly when both failed; and
/// nothing classifies when all three failed.
pub proof fn lemma_schema_tie_break(
    device: Option<DeviceReading>,
    environment: Option<EnvironmentReading>,
    power: Option<PowerReading>,
)
    ensures
        device matches Some(d) ==> telemetry_pick_spec(device, environment, power) == Some(
            (Telemetry::Device {
                battery_level: d.battery_level,
                voltage_bits: d.voltage_bits,
                uptime_seconds: d.uptime_seconds,
            }),
        ),
        device is None ==> (environment matches Some(e) ==> telemetry_pick_spec(
            device,
            environment,
            power,
        ) == Some(
            (Telemetry::Environment {
                temperature_bits: e.temperature_bits,
                humidity_bits: e.humidity_bits,
                pressure_bits: e.pressure_bits,
            }),
        )),
        device is None && environment is None ==> (power matches Some(p) ==> telemetry_pick_spec(
            device,
            environment,
            power,
        ) == Some(
            (Telemetry::Power { voltage_bits: p.voltage_bits, current_bits: p.current_bits }),
        )),
        device is None && environment is None && power is None ==> telemetry_pick_spec(
            device,
            environment,
            power,
        ) is None,
{
}

/// Control message filtering law: a frame whose envelope carries id zero
/// classifies as a local control message, whatever the inner payload shape.
pub proof fn lemma_control_filter(w: WireView, r: Result<RadioMessage, DecodeError>)
    requires
        w.id == 0,
        classify_wire_matches(w, r),
    ensures
        r == Err::<RadioMessage, DecodeError>(DecodeError::LocalControlMessage),
{
}

/// Unsupported port law: a packet on any port outside the closed set is
/// reported as that port, never dropped and never defaulted.
pub proof fn lemma_unsupported_port(
    node_id: u32,
    port: i32,
    payload: Seq<u8>,
    r: Result<RadioMessage, DecodeError>,
)
    requires
        port != PORT_TEXT_MESSAGE,
        port != PORT_POSITION,
        port != PORT_TELEMETRY,
        classify_packet_matches(node_id, port, payload, r),
    ensures
        r == Err::<RadioMessage, DecodeError>(DecodeError::UnsupportedPort(port)),
{
}

} // verus!
