use meshcap::radio_message::{classify, port_of, telemetry_from_readings, AppMessage, DecodeError, Port, RadioMessage, Telemetry};
use meshcap::wire::{DeviceReading, EnvironmentReading, PowerReading};

use meshtastic::protobufs::from_radio::PayloadVariant as FromRadioPayload;
use meshtastic::protobufs::mesh_packet::PayloadVariant as MeshPayload;
use meshtastic::protobufs::{Data, DeviceMetrics, EnvironmentMetrics, FromRadio, MeshPacket, PortNum};
use meshtastic::Message;

fn frame_with_payload(id: u32, portnum: i32, payload: Vec<u8>) -> Vec<u8> {
    let data = Data { portnum, payload, ..Default::default() };
    let packet = MeshPacket {
        from: 42,
        id: 123,
        payload_variant: Some(MeshPayload::Decoded(data)),
        ..Default::default()
    };
    let from_radio = FromRadio { id, payload_variant: Some(FromRadioPayload::Packet(packet)) };
    from_radio.encode_to_vec()
}

fn make_frame(portnum: PortNum) -> Vec<u8> {
    frame_with_payload(99, portnum as i32, vec![1, 2, 3])
}

#[test]
fn detects_telemetry_decode_error() {
    let frame = make_frame(PortNum::TelemetryApp);
    let radio_msg = classify(&frame);
    assert!(radio_msg.is_err());
}

#[test]
fn classifies_other_ports() {
    let frame = make_frame(PortNum::TextMessageApp);
    let radio_msg = classify(&frame).unwrap();

    match radio_msg.app {
        AppMessage::Text(_) => {}
        _ => panic!("expected text message"),
    }
}

#[test]
fn decodes_telemetry_message() {
    let metrics = DeviceMetrics {
        battery_level: Some(87),
        voltage: Some(4.12),
        uptime_seconds: Some(12345),
        ..Default::default()
    };

    let mut payload = Vec::new();
    metrics.encode(&mut payload).unwrap();

    let frame = frame_with_payload(42, PortNum::TelemetryApp as i32, payload);
    let _msg = classify(&frame).unwrap();
}

#[test]
fn telemetry_fields_survive_normalization() {
    let metrics = DeviceMetrics {
        battery_level: Some(87),
        voltage: Some(4.12),
        uptime_seconds: Some(12345),
        ..Default::default()
    };
    let frame = frame_with_payload(42, PortNum::TelemetryApp as i32, metrics.encode_to_vec());
    let msg = classify(&frame).unwrap();
    assert_eq!(msg.node_id, 42);
    assert_eq!(msg.portnum, Port::Telemetry);
    match msg.app {
        AppMessage::Telemetry(Telemetry::Device { battery_level, voltage_bits, uptime_seconds }) => {
            assert_eq!(battery_level, Some(87));
            assert_eq!(voltage_bits, Some(4.12f32.to_bits()));
            assert_eq!(uptime_seconds, Some(12345));
        }
        other => panic!("expected device telemetry, got {:?}", other),
    }
}

#[test]
fn tie_break_prefers_device_when_both_parse() {
    // The empty payload parses under every schema (all fields absent), so the
    // fixed priority order must pick the device schema.
    let frame = frame_with_payload(7, PortNum::TelemetryApp as i32, Vec::new());
    let msg = classify(&frame).unwrap();
    match msg.app {
        AppMessage::Telemetry(Telemetry::Device { battery_level, voltage_bits, uptime_seconds }) => {
            assert_eq!(battery_level, None);
            assert_eq!(voltage_bits, None);
            assert_eq!(uptime_seconds, None);
        }
        other => panic!("expected device telemetry, got {:?}", other),
    }
}

#[test]
fn tie_break_falls_back_to_environment() {
    // A float in field one has the wrong wire type for the device schema's
    // battery level, so only the environment (and power) schemas parse, and
    // environment wins by priority.
    let metrics = EnvironmentMetrics { temperature: Some(25.5), ..Default::default() };
    let frame = frame_with_payload(7, PortNum::TelemetryApp as i32, metrics.encode_to_vec());
    let msg = classify(&frame).unwrap();
    match msg.app {
        AppMessage::Telemetry(Telemetry::Environment { temperature_bits, humidity_bits, pressure_bits }) => {
            assert_eq!(temperature_bits, Some(25.5f32.to_bits()));
            assert_eq!(humidity_bits, None);
            assert_eq!(pressure_bits, None);
        }
        other => panic!("expected environment telemetry, got {:?}", other),
    }
}

#[test]
fn tie_break_order_over_readings() {
    let d = DeviceReading { battery_level: Some(1), voltage_bits: None, uptime_seconds: None };
    let e = EnvironmentReading { temperature_bits: Some(2), humidity_bits: None, pressure_bits: None };
    let p = PowerReading { voltage_bits: Some(3), current_bits: None };

    let picked = telemetry_from_readings(Some(d), Some(e), Some(p)).unwrap();
    assert!(matches!(picked, Telemetry::Device { .. }));

    let picked = telemetry_from_readings(None, Some(e), Some(p)).unwrap();
    assert!(matches!(picked, Telemetry::Environment { .. }));

    let picked = telemetry_from_readings(None, None, Some(p)).unwrap();
    assert!(matches!(picked, Telemetry::Power { .. }));

    assert_eq!(telemetry_from_readings(None, None, None), None);
}

#[test]
fn position_fixed_point_conversion() {
    let position = meshtastic::protobufs::Position {
        latitude_i: Some(123456789),
        longitude_i: Some(-987654321),
        altitude: Some(100),
        gps_accuracy: 5,
        ground_speed: Some(30),
        ..Default::default()
    };
    let frame = frame_with_payload(7, PortNum::PositionApp as i32, position.encode_to_vec());
    let msg = classify(&frame).unwrap();
    assert_eq!(msg.portnum, Port::Position);
    match msg.app {
        AppMessage::Position(pos) => {
            assert_eq!(pos.latitude_i, 123456789);
            assert_eq!(pos.longitude_i, -987654321);
            assert_eq!(pos.altitude, 100);
            assert_eq!(pos.accuracy, 5);
            assert_eq!(pos.ground_speed, 30);
            assert_eq!(pos.heading, 0);
            let degrees = pos.latitude_i as f64 * 1e-7;
            assert!((degrees - 12.3456789).abs() < 1e-9);
        }
        other => panic!("expected position, got {:?}", other),
    }
}

#[test]
fn position_missing_fields_default_to_zero() {
    let position = meshtastic::protobufs::Position::default();
    let frame = frame_with_payload(7, PortNum::PositionApp as i32, position.encode_to_vec());
    let msg = classify(&frame).unwrap();
    match msg.app {
        AppMessage::Position(pos) => {
            assert_eq!(pos.latitude_i, 0);
            assert_eq!(pos.longitude_i, 0);
            assert_eq!(pos.altitude, 0);
        }
        other => panic!("expected position, got {:?}", other),
    }
}

#[test]
fn unsupported_port_is_reported() {
    let frame = frame_with_payload(7, 9999, vec![1, 2, 3]);
    let err = classify(&frame).unwrap_err();
    assert_eq!(err, DecodeError::UnsupportedPort(9999));
}

#[test]
fn control_message_filtered_on_zero_id() {
    let frame = frame_with_payload(0, PortNum::TextMessageApp as i32, vec![104, 105]);
    let err = classify(&frame).unwrap_err();
    assert_eq!(err, DecodeError::LocalControlMessage);
}

#[test]
fn control_message_filtered_whatever_the_shape() {
    let from_radio = FromRadio { id: 0, payload_variant: None };
    let err = classify(&from_radio.encode_to_vec()).unwrap_err();
    assert_eq!(err, DecodeError::LocalControlMessage);

    let frame = frame_with_payload(0, 9999, Vec::new());
    let err = classify(&frame).unwrap_err();
    assert_eq!(err, DecodeError::LocalControlMessage);
}

#[test]
fn text_message_is_lossy_never_an_error() {
    let frame = frame_with_payload(7, PortNum::TextMessageApp as i32, b"hello".to_vec());
    let msg = classify(&frame).unwrap();
    match msg.app {
        AppMessage::Text(t) => {
            assert_eq!(t.msg, "hello");
            assert_eq!(t.to, None);
            assert_eq!(t.from, None);
        }
        other => panic!("expected text, got {:?}", other),
    }

    let frame = frame_with_payload(7, PortNum::TextMessageApp as i32, vec![0xFF, 0xFE]);
    let msg = classify(&frame).unwrap();
    match msg.app {
        AppMessage::Text(t) => assert_eq!(t.msg, "\u{FFFD}\u{FFFD}"),
        other => panic!("expected text, got {:?}", other),
    }
}

#[test]
fn malformed_envelope_cases() {
    // Bytes that do not decode as an envelope at all.
    let err = classify(&vec![0xFF]).unwrap_err();
    assert_eq!(err, DecodeError::MalformedEnvelope);

    // An envelope that is not a payload-bearing packet.
    let from_radio = FromRadio { id: 5, payload_variant: None };
    let err = classify(&from_radio.encode_to_vec()).unwrap_err();
    assert_eq!(err, DecodeError::MalformedEnvelope);

    let from_radio = FromRadio {
        id: 5,
        payload_variant: Some(FromRadioPayload::ConfigCompleteId(9)),
    };
    let err = classify(&from_radio.encode_to_vec()).unwrap_err();
    assert_eq!(err, DecodeError::MalformedEnvelope);
}

#[test]
fn missing_payload_variant_on_undecoded_packet() {
    let packet = MeshPacket {
        payload_variant: Some(MeshPayload::Encrypted(vec![1, 2, 3])),
        ..Default::default()
    };
    let from_radio = FromRadio { id: 5, payload_variant: Some(FromRadioPayload::Packet(packet)) };
    let err = classify(&from_radio.encode_to_vec()).unwrap_err();
    assert_eq!(err, DecodeError::MissingPayloadVariant);
}

#[test]
fn schema_mismatch_retains_bytes_and_hex() {
    let frame = frame_with_payload(7, PortNum::TelemetryApp as i32, vec![0x0A, 0x1B, 0xFF]);
    let err = classify(&frame).unwrap_err();
    match &err {
        DecodeError::SchemaMismatch(raw) => assert_eq!(raw, &vec![0x0A, 0x1B, 0xFF]),
        other => panic!("expected schema mismatch, got {:?}", other),
    }
    assert_eq!(err.hex_diagnostic(), Some("0A 1B FF".to_string()));
    assert_eq!(DecodeError::MalformedEnvelope.hex_diagnostic(), None);
}

#[test]
fn position_schema_mismatch_retains_bytes() {
    let frame = frame_with_payload(7, PortNum::PositionApp as i32, vec![0x0A, 0x1B, 0xFF]);
    let err = classify(&frame).unwrap_err();
    match err {
        DecodeError::SchemaMismatch(raw) => assert_eq!(raw, vec![0x0A, 0x1B, 0xFF]),
        other => panic!("expected schema mismatch, got {:?}", other),
    }
}

#[test]
fn hex_diagnostic_of_empty_bytes_is_empty() {
    let err = DecodeError::SchemaMismatch(Vec::new());
    assert_eq!(err.hex_diagnostic(), Some(String::new()));
}

#[test]
fn port_dispatch_table() {
    assert_eq!(port_of(1), Some(Port::TextMessage));
    assert_eq!(port_of(3), Some(Port::Position));
    assert_eq!(port_of(67), Some(Port::Telemetry));
    assert_eq!(port_of(0), None);
    assert_eq!(port_of(-1), None);
    assert_eq!(port_of(9999), None);
}

#[test]
fn classified_message_carries_id_and_port() {
    let frame = frame_with_payload(4242, PortNum::TextMessageApp as i32, b"ok".to_vec());
    let msg: RadioMessage = classify(&frame).unwrap();
    assert_eq!(msg.node_id, 4242);
    assert_eq!(msg.portnum, Port::TextMessage);
}
