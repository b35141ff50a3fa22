use sh_lib::contracts::{Commands, DeviceData, DeviceResponse, SocketData, ThermometerData};
use sh_lib::contracts::request_bytes;
use sh_lib::errors::ProtocolError;
use sh_lib::wire::{frame_payload, make_frame};

fn socket_snapshot() -> DeviceData {
    DeviceData::Socket(SocketData {
        power_centi: 123456,
        is_on: true,
        timestamp: 1700000000123,
        is_online: true,
    })
}

fn thermometer_snapshot() -> DeviceData {
    DeviceData::Thermometer(ThermometerData {
        temp_centi: -1050,
        timestamp: 1700000000456,
        is_online: true,
    })
}

#[test]
fn round_trip_socket_success() {
    let response = DeviceResponse {
        data: Some(socket_snapshot()),
        success: true,
        error: None,
    };
    let decoded = DeviceResponse::decode(&response.encode()).unwrap();
    assert_eq!(decoded, response);
}

#[test]
fn round_trip_thermometer_success() {
    let response = DeviceResponse {
        data: Some(thermometer_snapshot()),
        success: true,
        error: None,
    };
    let decoded = DeviceResponse::decode(&response.encode()).unwrap();
    assert_eq!(decoded, response);
}

#[test]
fn round_trip_failure_with_error_text() {
    let response = DeviceResponse {
        data: None,
        success: false,
        error: Some(String::from("Unknown command")),
    };
    let decoded = DeviceResponse::decode(&response.encode()).unwrap();
    assert_eq!(decoded, response);
}

#[test]
fn round_trip_success_without_data() {
    let response = DeviceResponse {
        data: None,
        success: true,
        error: None,
    };
    let decoded = DeviceResponse::decode(&response.encode()).unwrap();
    assert_eq!(decoded, response);
}

#[test]
fn encode_minimal_response_exact_bytes() {
    let response = DeviceResponse {
        data: None,
        success: true,
        error: None,
    };
    assert_eq!(response.encode(), vec![0u8, 1, 0]);
}

#[test]
fn encode_error_response_exact_bytes() {
    let response = DeviceResponse {
        data: None,
        success: false,
        error: Some(String::from("ab")),
    };
    assert_eq!(
        response.encode(),
        vec![0u8, 0, 1, 0, 0, 0, 0, 0, 0, 0, 2, b'a', b'b']
    );
}

#[test]
fn decode_rejects_truncated_payload() {
    let response = DeviceResponse {
        data: Some(socket_snapshot()),
        success: true,
        error: None,
    };
    let mut bytes = response.encode();
    bytes.pop();
    assert_eq!(DeviceResponse::decode(&bytes), Err(ProtocolError::Malformed));
}

#[test]
fn decode_rejects_trailing_bytes() {
    let response = DeviceResponse {
        data: None,
        success: true,
        error: None,
    };
    let mut bytes = response.encode();
    bytes.push(0);
    assert_eq!(DeviceResponse::decode(&bytes), Err(ProtocolError::Malformed));
}

#[test]
fn decode_rejects_bad_tag() {
    assert_eq!(DeviceResponse::decode(&[2, 1, 0]), Err(ProtocolError::Malformed));
}

#[test]
fn decode_rejects_failure_without_error_text() {
    // data: none, success: false, error: none — breaks the response invariant
    assert_eq!(DeviceResponse::decode(&[0, 0, 0]), Err(ProtocolError::Malformed));
}

#[test]
fn decode_rejects_invalid_utf8_error_text() {
    // data: none, success: false, error text of 1 byte that is no UTF-8
    let bytes = vec![0u8, 0, 1, 0, 0, 0, 0, 0, 0, 0, 1, 0xff];
    assert_eq!(DeviceResponse::decode(&bytes), Err(ProtocolError::Malformed));
}

#[test]
fn frame_is_payload_length_plus_prefix() {
    let payload = vec![7u8, 8, 9];
    let frame = make_frame(&payload);
    assert_eq!(frame.len(), 8 + payload.len());
    assert_eq!(&frame[..8], &[0u8, 0, 0, 0, 0, 0, 0, 3]);
    assert_eq!(&frame[8..], &payload[..]);
}

#[test]
fn frame_payload_recovers_framed_bytes() {
    let payload = vec![1u8, 2, 3, 4];
    let frame = make_frame(&payload);
    assert_eq!(frame_payload(&frame), Some(payload));
}

#[test]
fn frame_payload_rejects_short_datagram() {
    assert_eq!(frame_payload(&[0u8, 0, 0]), None);
}

#[test]
fn frame_payload_rejects_overlong_announcement() {
    // announces 5 payload bytes but carries only 2
    let datagram = vec![0u8, 0, 0, 0, 0, 0, 0, 5, 1, 2];
    assert_eq!(frame_payload(&datagram), None);
}

#[test]
fn command_codes_map_to_commands() {
    assert_eq!(Commands::from(1), Commands::TurnOn);
    assert_eq!(Commands::from(2), Commands::TurnOff);
    assert_eq!(Commands::from(3), Commands::GetStatus);
    assert_eq!(Commands::from(0), Commands::Unknown);
    assert_eq!(Commands::from(-1), Commands::Unknown);
    assert_eq!(Commands::from(99), Commands::Unknown);
}

#[test]
fn command_request_bytes_are_big_endian_codes() {
    assert_eq!(request_bytes(Commands::TurnOn), vec![0u8, 0, 0, 1]);
    assert_eq!(request_bytes(Commands::TurnOff), vec![0u8, 0, 0, 2]);
    assert_eq!(request_bytes(Commands::GetStatus), vec![0u8, 0, 0, 3]);
    assert_eq!(request_bytes(Commands::Unknown), vec![0u8, 0, 0, 0]);
}

#[test]
fn command_codes_round_trip() {
    for cmd in [Commands::Unknown, Commands::TurnOn, Commands::TurnOff, Commands::GetStatus] {
        assert_eq!(Commands::from(cmd.code()), cmd);
    }
}
