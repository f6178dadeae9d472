use relay_ctrl::protocol::CommandOutcome;
use relay_ctrl::protocol::Connection;
use relay_ctrl::protocol::decode_response;

#[test]
fn valid_response_acknowledges_with_its_bytes() {
    let r = decode_response([8, 0, 3, 11]);
    assert_eq!(r, CommandOutcome::Ack { opcode: 8, data: 3 });
}

#[test]
fn valid_response_with_status_byte() {
    let r = decode_response([8, 1, 3, 10]);
    assert_eq!(r, CommandOutcome::Ack { opcode: 8, data: 3 });
}

#[test]
fn checksum_mismatch_reports_the_whole_frame() {
    let r = decode_response([8, 0, 3, 99]);
    assert_eq!(r, CommandOutcome::ChecksumMismatch { received: [8, 0, 3, 99] });
}

#[test]
fn all_zero_response_is_valid() {
    let r = decode_response([0, 0, 0, 0]);
    assert_eq!(r, CommandOutcome::Ack { opcode: 0, data: 0 });
}

#[test]
fn echoed_command_frame_decodes_to_its_own_opcode_and_data() {
    for (opcode, data) in [(8u8, 3u8), (8, 255), (0, 0), (42, 7)] {
        let frame = relay_ctrl::frame::build_frame(opcode, data);
        assert_eq!(decode_response(frame), CommandOutcome::Ack { opcode, data });
    }
}

#[test]
fn missing_device_fails_to_open() {
    let r = Connection::new("/no/such/serial/device", 9600);
    assert!(r.is_err());
    assert!(!r.err().unwrap().message.is_empty());
}
