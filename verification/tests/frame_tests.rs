use relay_ctrl::frame::build_frame;
use relay_ctrl::frame::frame_valid;

#[test]
fn toggle_frame_for_pin_three() {
    assert_eq!(build_frame(8, 3), [8, 0, 3, 11]);
}

#[test]
fn zero_frame() {
    assert_eq!(build_frame(0, 0), [0, 0, 0, 0]);
}

#[test]
fn checksum_is_xor_of_first_three_bytes() {
    let cases: [(u8, u8); 5] = [(8, 3), (8, 255), (1, 2), (0, 200), (255, 255)];
    for (opcode, data) in cases {
        let f = build_frame(opcode, data);
        assert_eq!(f[0], opcode);
        assert_eq!(f[1], 0);
        assert_eq!(f[2], data);
        assert_eq!(f[3], opcode ^ 0 ^ data);
        assert_eq!(f[3], f[0] ^ f[1] ^ f[2]);
    }
}

#[test]
fn built_frames_pass_their_own_check() {
    assert!(frame_valid(&build_frame(8, 3)));
    assert!(frame_valid(&build_frame(0, 0)));
    assert!(frame_valid(&build_frame(255, 1)));
}

#[test]
fn validity_is_exactly_the_checksum_equation() {
    assert!(frame_valid(&[8, 0, 3, 11]));
    assert!(!frame_valid(&[8, 0, 3, 99]));
    assert!(frame_valid(&[1, 2, 3, 0]));
    assert!(!frame_valid(&[1, 2, 3, 1]));
}

#[test]
fn corrupting_one_byte_invalidates_the_frame() {
    let good: [u8; 4] = [8, 0, 3, 11];
    assert!(frame_valid(&good));
    for i in 0..4 {
        let mut bad = good;
        bad[i] ^= 0x40;
        assert!(!frame_valid(&bad));
    }
}
