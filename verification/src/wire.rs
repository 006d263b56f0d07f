//! The wire boundary: what a raw frame decodes to.
//!
//! A frame is an opaque byte sequence.  The outside protobuf decoder turns it
//! into an envelope; this module reduces that envelope to the plain values the
//! classifier reads — the originating id, the outer shape, and for a
//! payload-bearing packet its port and payload bytes — and gives the decoded
//! schema readings names that the classifier's contracts are stated over.
//! Every function here is a trusted wrapper around one outside decode call.

use vstd::prelude::*;

use meshtastic::protobufs::from_radio::PayloadVariant as FromRadioPayload;
use meshtastic::protobufs::mesh_packet::PayloadVariant as MeshPayload;
use meshtastic::Message;

verus! {

/// The outer shape of a decoded envelope, reduced to plain values.
pub enum WireVariant {
    /// Channel info record.
    ChannelInfo,
    /// Node info record.
    NodeInfo,
    /// A payload-bearing packet: the port designator and the payload bytes.
    Packet { port: i32, payload: Vec<u8> },
    /// A packet whose inner payload is not decoded (still encrypted).
    OpaquePacket,
    /// Any other envelope kind.
    Other,
}

/// A decoded envelope: the originating id and the outer shape.
pub struct WireMessage {
    pub id: u32,
    pub variant: WireVariant,
}

/// Mathematical image of `WireVariant`.
pub enum WireVariantView {
    ChannelInfo,
    NodeInfo,
    Packet { port: i32, payload: Seq<u8> },
    OpaquePacket,
    Other,
}

/// Mathematical image of `WireMessage`.
pub struct WireView {
    pub id: u32,
    pub variant: WireVariantView,
}

impl View for WireVariant {
    type V = WireVariantView;

    open spec fn view(&self) -> WireVariantView {
        match self {
            WireVariant::ChannelInfo => WireVariantView::ChannelInfo,
            WireVariant::NodeInfo => WireVariantView::NodeInfo,
            WireVariant::Packet { port, payload } => WireVariantView::Packet {
                port: *port,
                payload: payload@,
            },
            WireVariant::OpaquePacket => WireVariantView::OpaquePacket,
            WireVariant::Other => WireVariantView::Other,
        }
    }
}

impl View for WireMessage {
    type V = WireView;

    open spec fn view(&self) -> WireView {
        WireView { id: self.id, variant: self.variant@ }
    }
}

/// What the outside envelope decoder yields on given frame bytes: `None` when
/// the bytes do not decode as an envelope.
pub uninterp spec fn wire_of(bytes: Seq<u8>) -> Option<WireView>;

/// The view of an optional decoded envelope.
pub open spec fn wire_view_of(r: Option<WireMessage>) -> Option<WireView> {
    match r {
        Some(w) => Some(w@),
        None => None,
    }
}

/// Relies on `meshtastic::protobufs::FromRadio::decode` (prost), a
/// deterministic function of the bytes.  The decoded envelope's payload
/// variant is reduced arm by arm to `WireVariant`.
#[verifier::external_body]
pub fn parse_wire(bytes: &[u8]) -> (r: Option<WireMessage>)
    ensures
        wire_view_of(r) == wire_of(bytes@),
{
    let m = match meshtastic::protobufs::FromRadio::decode(bytes) {
        Ok(m) => m,
        Err(_) => return None,
    };
    let variant = match m.payload_variant {
        Some(FromRadioPayload::Packet(p)) => match p.payload_variant {
            Some(MeshPayload::Decoded(d)) => WireVariant::Packet { port: d.portnum, payload: d.payload },
            _ => WireVariant::OpaquePacket,
        },
        Some(FromRadioPayload::Channel(_)) => WireVariant::ChannelInfo,
        Some(FromRadioPayload::NodeInfo(_)) => WireVariant::NodeInfo,
        _ => WireVariant::Other,
    };
    Some(WireMessage { id: m.id, variant })
}

/// A decoded device-metrics reading.  Voltage is carried as the IEEE-754 bit
/// pattern of the wire value, untouched.
#[derive(Clone, Copy, Debug, PartialEq, Eq)]
pub struct DeviceReading {
    pub battery_level: Option<u32>,
    pub voltage_bits: Option<u32>,
    pub uptime_seconds: Option<u32>,
}

/// A decoded environment-metrics reading, fields as IEEE-754 bit patterns.
#[derive(Clone, Copy, Debug, PartialEq, Eq)]
pub struct EnvironmentReading {
    pub temperature_bits: Option<u32>,
    pub humidity_bits: Option<u32>,
    pub pressure_bits: Option<u32>,
}

/// A decoded power-metrics reading, fields as IEEE-754 bit patterns.
#[derive(Clone, Copy, Debug, PartialEq, Eq)]
pub struct PowerReading {
    pub voltage_bits: Option<u32>,
    pub current_bits: Option<u32>,
}

/// A decoded position reading: fixed-point coordinates and raw wire fields,
/// optional where the sensor may not have supplied them.
#[derive(Clone, Copy, Debug, PartialEq, Eq)]
pub struct PositionReading {
    pub latitude_i: Option<i32>,
    pub longitude_i: Option<i32>,
    pub altitude: Option<i32>,
    pub gps_accuracy: u32,
    pub ground_speed: Option<u32>,
}

/// What the device-metrics schema decoder yields on given payload bytes:
/// `None` when the payload does not parse under that schema.
pub uninterp spec fn device_of(bytes: Seq<u8>) -> Option<DeviceReading>;

/// What the environment-metrics schema decoder yields on given payload bytes.
pub uninterp spec fn environment_of(bytes: Seq<u8>) -> Option<EnvironmentReading>;

/// What the power-metrics schema decoder yields on given payload bytes.
pub uninterp spec fn power_of(bytes: Seq<u8>) -> Option<PowerReading>;

/// What the position schema decoder yields on given payload bytes.
pub uninterp spec fn position_of(bytes: Seq<u8>) -> Option<PositionReading>;

/// Relies on `meshtastic::protobufs::DeviceMetrics::decode` (prost), a
/// deterministic function of the bytes; the float field is carried as its bit
/// pattern.
#[verifier::external_body]
pub fn decode_device(bytes: &[u8]) -> (r: Option<DeviceReading>)
    ensures
        r == device_of(bytes@),
{
    match meshtastic::protobufs::DeviceMetrics::decode(bytes) {
        Ok(m) => Some(DeviceReading {
            battery_level: m.battery_level,
            voltage_bits: m.voltage.map(|v| v.to_bits()),
            uptime_seconds: m.uptime_seconds,
        }),
        Err(_) => None,
    }
}

/// Relies on `meshtastic::protobufs::EnvironmentMetrics::decode` (prost), a
/// deterministic function of the bytes; float fields are carried as bit
/// patterns.
#[verifier::external_body]
pub fn decode_environment(bytes: &[u8]) -> (r: Option<EnvironmentReading>)
    ensures
        r == environment_of(bytes@),
{
    match meshtastic::protobufs::EnvironmentMetrics::decode(bytes) {
        Ok(m) => Some(EnvironmentReading {
            temperature_bits: m.temperature.map(|v| v.to_bits()),
            humidity_bits: m.relative_humidity.map(|v| v.to_bits()),
            pressure_bits: m.barometric_pressure.map(|v| v.to_bits()),
        }),
        Err(_) => None,
    }
}

/// Relies on `meshtastic::protobufs::PowerMetrics::decode` (prost), a
/// deterministic function of the bytes; float fields are carried as bit
/// patterns.
#[verifier::external_body]
pub fn decode_power(bytes: &[u8]) -> (r: Option<PowerReading>)
    ensures
        r == power_of(bytes@),
{
    match meshtastic::protobufs::PowerMetrics::decode(bytes) {
        Ok(m) => Some(PowerReading {
            voltage_bits: m.ch1_voltage.map(|v| v.to_bits()),
            current_bits: m.ch1_current.map(|v| v.to_bits()),
        }),
        Err(_) => None,
    }
}

/// Relies on `meshtastic::protobufs::Position::decode` (prost), a
/// deterministic function of the bytes.  Coordinates come fixed-point from
/// the wire and stay fixed-point.
#[verifier::external_body]
pub fn decode_position(bytes: &[u8]) -> (r: Option<PositionReading>)
    ensures
        r == position_of(bytes@),
{
    match meshtastic::protobufs::Position::decode(bytes) {
        Ok(m) => Some(PositionReading {
            latitude_i: m.latitude_i,
            longitude_i: m.longitude_i,
            altitude: m.altitude,
            gps_accuracy: m.gps_accuracy,
            ground_speed: m.ground_speed,
        }),
        Err(_) => None,
    }
}

/// What lossy text decoding yields on given payload bytes: a deterministic
/// function of the bytes that never fails.
pub uninterp spec fn utf8_lossy_of(bytes: Seq<u8>) -> Seq<char>;

/// Relies on `String::from_utf8_lossy`: deterministic in the bytes, invalid
/// sequences replaced with the replacement character, never an error.
#[verifier::external_body]
pub fn utf8_lossy(bytes: &[u8]) -> (r: String)
    ensures
        r@ == utf8_lossy_of(bytes@),
{
    String::from_utf8_lossy(bytes).into_owned()
}

} // verus!
