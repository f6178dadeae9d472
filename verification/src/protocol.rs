//! The protocol engine: builds a four-byte command frame, drives the
//! transport for one synchronous exchange, and validates the four-byte
//! response against its checksum.

use vstd::prelude::*;
use crate::frame::build_frame;
use crate::frame::checksum_ok;
use crate::frame::frame_valid;
use crate::transport::SerialTransport;
use crate::transport::TransportError;

verus! {

/// The result of one command/response exchange.
#[derive(Clone, Debug, PartialEq, Eq)]
pub enum CommandOutcome {
    /// The device answered with a checksum-valid frame; `opcode` and `data`
    /// are its first and third bytes.
    Ack { opcode: u8, data: u8 },
    /// The write or the read failed; a timed-out read counts as a failure.
    TransportFailure { message: String },
    /// A response arrived but its checksum byte does not match the XOR of
    /// its first three bytes.
    ChecksumMismatch { received: [u8; 4] },
}

/// Decodes a four-byte response frame: a valid frame acknowledges with its
/// opcode and data bytes, an invalid one is reported whole.
pub fn decode_response(resp: [u8; 4]) -> (r: CommandOutcome)
    ensures
        checksum_ok(resp@) ==> r == (CommandOutcome::Ack { opcode: resp@[0], data: resp@[2] }),
        !checksum_ok(resp@) ==> r == (CommandOutcome::ChecksumMismatch { received: resp }),
{
    if frame_valid(&resp) {
        CommandOutcome::Ack { opcode: resp[0], data: resp[2] }
    } else {
        CommandOutcome::ChecksumMismatch { received: resp }
    }
}

/// Drives one command/response exchange at a time over an exclusively owned
/// serial transport.
pub struct Connection {
    transport: SerialTransport,
}

impl Connection {
    /// Opens the serial device at `port` at the given baud rate; the handle
    /// carries a fixed five-second timeout. A device that cannot be opened
    /// is reported as an error value.
    pub fn new(port: &str, baudrate: u32) -> (r: Result<Connection, TransportError>) {
        match SerialTransport::open(port, baudrate) {
            Ok(transport) => Ok(Connection { transport }),
            Err(e) => Err(e),
        }
    }

    /// Sends the frame `[command, 0, data, command ^ 0 ^ data]` and awaits a
    /// four-byte response. A write or read failure yields a transport
    /// failure; a response that fails its checksum is reported whole; a
    /// valid response acknowledges with its own opcode and data bytes.
    pub fn send_command(&mut self, command: u8, data: u8) -> (r: CommandOutcome)
        ensures
            r matches CommandOutcome::Ack { opcode: op, data: d } ==> exists|resp: Seq<u8>|
                resp.len() == 4 && checksum_ok(resp) && op == resp[0] && d == resp[2],
            r matches CommandOutcome::ChecksumMismatch { received } ==> !checksum_ok(received@),
    {
        let cmd = build_frame(command, data);
        match self.transport.write_exact(&cmd) {
            Ok(()) => {}
            Err(e) => {
                return CommandOutcome::TransportFailure { message: e.message };
            }
        }
        match self.transport.read_exact() {
            Ok(resp) => {
                let r = decode_response(resp);
                proof {
                    if checksum_ok(resp@) {
                        assert(resp@.len() == 4 && checksum_ok(resp@) && resp@[0] == resp@[0]
                            && resp@[2] == resp@[2]);
                    }
                }
                r
            }
            Err(e) => CommandOutcome::TransportFailure { message: e.message },
        }
    }
}

} // verus!
