use camdev::command::{decode_capture_command, CAPTURE_COMMAND_LEN};
use camdev::errors::DeviceError;

fn push_u64_le(bytes: &mut Vec<u8>, value: u64) {
    for shift in 0..8 {
        bytes.push(((value >> (8 * shift)) & 0xff) as u8);
    }
}

fn command_payload(
    start_frame_number: u64,
    frame_count: u64,
    command_kind: u64,
    buffer_descriptor: u64,
) -> Vec<u8> {
    let mut bytes = Vec::new();
    push_u64_le(&mut bytes, start_frame_number);
    push_u64_le(&mut bytes, frame_count);
    push_u64_le(&mut bytes, command_kind);
    push_u64_le(&mut bytes, buffer_descriptor);
    bytes
}

#[test]
fn decode_yields_the_four_fields_in_order() {
    // start frame 1, 100 frames, command kind 7, buffer descriptor 42.
    let payload = command_payload(1, 100, 7, 42);
    assert_eq!(payload.len(), CAPTURE_COMMAND_LEN);
    let cmd = decode_capture_command(&payload).unwrap();
    assert_eq!(cmd.start_frame_number, 1);
    assert_eq!(cmd.frame_count, 100);
    assert_eq!(cmd.command_kind, 7);
    assert_eq!(cmd.buffer_descriptor, 42);
}

#[test]
fn decode_is_little_endian_within_each_field() {
    let mut payload = vec![0u8; 32];
    payload[0] = 0x01;
    payload[1] = 0x02;
    payload[7] = 0x80;
    payload[8] = 0xff;
    let cmd = decode_capture_command(&payload).unwrap();
    assert_eq!(cmd.start_frame_number, 0x8000000000000201);
    assert_eq!(cmd.frame_count, 0xff);
    assert_eq!(cmd.command_kind, 0);
    assert_eq!(cmd.buffer_descriptor, 0);
}

#[test]
fn decode_handles_zero_values() {
    let cmd = decode_capture_command(&vec![0u8; 32]).unwrap();
    assert_eq!(cmd.start_frame_number, 0);
    assert_eq!(cmd.frame_count, 0);
    assert_eq!(cmd.command_kind, 0);
    assert_eq!(cmd.buffer_descriptor, 0);
}

#[test]
fn decode_handles_maximum_values() {
    let payload = command_payload(u64::MAX, u64::MAX, u64::MAX, u64::MAX);
    let cmd = decode_capture_command(&payload).unwrap();
    assert_eq!(cmd.start_frame_number, u64::MAX);
    assert_eq!(cmd.frame_count, u64::MAX);
    assert_eq!(cmd.command_kind, u64::MAX);
    assert_eq!(cmd.buffer_descriptor, u64::MAX);
}

#[test]
fn decode_rejects_short_payloads() {
    assert_eq!(
        decode_capture_command(&Vec::new()),
        Err(DeviceError::MalformedCommand)
    );
    assert_eq!(
        decode_capture_command(&vec![0u8; 31]),
        Err(DeviceError::MalformedCommand)
    );
}

#[test]
fn decode_ignores_bytes_past_the_fixed_layout() {
    let mut payload = command_payload(3, 4, 5, 6);
    payload.extend_from_slice(&[0xaa; 8]);
    let cmd = decode_capture_command(&payload).unwrap();
    assert_eq!(cmd.start_frame_number, 3);
    assert_eq!(cmd.frame_count, 4);
    assert_eq!(cmd.command_kind, 5);
    assert_eq!(cmd.buffer_descriptor, 6);
}
