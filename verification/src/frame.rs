//! The wire format: every frame is exactly four bytes,
//! `[opcode, reserved, data, checksum]`, and the checksum is the XOR of the
//! first three bytes.

use vstd::prelude::*;

verus! {

/// The checksum of a four-byte frame: the XOR of its first three bytes.
pub open spec fn spec_checksum(f: Seq<u8>) -> u8
    recommends
        f.len() == 4,
{
    (f[0] ^ f[1]) ^ f[2]
}

/// A four-byte frame is valid exactly when its last byte equals the XOR of
/// the first three.
pub open spec fn checksum_ok(f: Seq<u8>) -> bool
    recommends
        f.len() == 4,
{
    f[3] == spec_checksum(f)
}

/// The outbound command frame for an opcode and a data byte:
/// `[opcode, 0, data, opcode ^ 0 ^ data]`.
pub open spec fn command_frame(opcode: u8, data: u8) -> Seq<u8> {
    seq![opcode, 0u8, data, (opcode ^ 0) ^ data]
}

/// Builds the four-byte command frame for one instruction.
pub fn build_frame(opcode: u8, data: u8) -> (f: [u8; 4])
    ensures
        f@ == command_frame(opcode, data),
{
    let checksum: u8 = opcode ^ data;
    proof {
        assert((opcode ^ 0) ^ data == opcode ^ data) by (bit_vector);
    }
    let f = [opcode, 0u8, data, checksum];
    proof {
        assert(f@ =~= command_frame(opcode, data));
    }
    f
}

/// Recomputes the checksum of a four-byte frame and compares it with the
/// frame's own checksum byte.
pub fn frame_valid(f: &[u8; 4]) -> (ok: bool)
    ensures
        ok == checksum_ok(f@),
{
    let expected: u8 = (f[0] ^ f[1]) ^ f[2];
    f[3] == expected
}

/// Law: the command frame for `(opcode, data)` carries `opcode` and `data`
/// in place, its checksum byte is `opcode ^ 0 ^ data`, and the frame passes
/// its own checksum test.
pub proof fn lemma_command_frame_round_trip(opcode: u8, data: u8)
    ensures
        command_frame(opcode, data).len() == 4,
        command_frame(opcode, data)[0] == opcode,
        command_frame(opcode, data)[1] == 0,
        command_frame(opcode, data)[2] == data,
        command_frame(opcode, data)[3] == (opcode ^ 0) ^ data,
        checksum_ok(command_frame(opcode, data)),
{
}

/// Law: a four-byte frame is valid exactly when its last byte is the XOR of
/// the first three.
pub proof fn lemma_validity_characterisation(f: Seq<u8>)
    requires
        f.len() == 4,
    ensures
        checksum_ok(f) <==> f[3] == (f[0] ^ f[1]) ^ f[2],
{
}

/// Law: corrupting exactly one byte of a valid four-byte frame always makes
/// it invalid.
pub proof fn lemma_single_corruption_detected(f: Seq<u8>, g: Seq<u8>, i: int)
    requires
        f.len() == 4,
        g.len() == 4,
        checksum_ok(f),
        0 <= i < 4,
        f[i] != g[i],
        forall|j: int| 0 <= j < 4 && j != i ==> f[j] == g[j],
    ensures
        !checksum_ok(g),
{
    let a = f[0];
    let b = f[1];
    let c = f[2];
    let d = f[3];
    let p = g[0];
    let q = g[1];
    let r = g[2];
    let s = g[3];
    if i == 0 {
        assert(s != (p ^ q) ^ r) by (bit_vector)
            requires
                d == (a ^ b) ^ c,
                p != a,
                q == b,
                r == c,
                s == d,
        ;
    } else if i == 1 {
        assert(s != (p ^ q) ^ r) by (bit_vector)
            requires
                d == (a ^ b) ^ c,
                p == a,
                q != b,
                r == c,
                s == d,
        ;
    } else if i == 2 {
        assert(s != (p ^ q) ^ r) by (bit_vector)
            requires
                d == (a ^ b) ^ c,
                p == a,
                q == b,
                r != c,
                s == d,
        ;
    } else {
        assert(s != (p ^ q) ^ r) by (bit_vector)
            requires
                d == (a ^ b) ^ c,
                p == a,
                q == b,
                r == c,
                s != d,
        ;
    }
}

} // verus!
