//! The serial transport: one open handle with a fixed five-second timeout,
//! byte-exact writes and reads, and every failure reported as a value.
//!
//! The calls into the serialport crate and into std's I/O traits stand behind
//! trusted wrappers; everything around them is verified.

use vstd::prelude::*;

verus! {

/// serialport's TTY handle; opaque to verification.
#[verifier::external_type_specification]
#[verifier::external_body]
pub struct ExTTYPort(serialport::TTYPort);

/// serialport's error type; opaque to verification.
#[verifier::external_type_specification]
#[verifier::external_body]
pub struct ExSerialportError(serialport::Error);

/// std's I/O error type; opaque to verification.
#[verifier::external_type_specification]
#[verifier::external_body]
pub struct ExIoError(std::io::Error);

/// Why a transport operation failed, as text fit for a log line.
#[derive(Clone, Debug)]
pub struct TransportError {
    pub message: String,
}

/// Relies on serialport::new, SerialPortBuilder::timeout and
/// SerialPortBuilder::open_native: opens the device at `path` at the given
/// baud rate, with reads and writes bounded by a five-second timeout.
#[verifier::external_body]
fn open_port(path: &str, baud: u32) -> Result<serialport::TTYPort, serialport::Error> {
    serialport::new(path, baud).timeout(std::time::Duration::from_secs(5)).open_native()
}

/// Relies on std::io::Write::write_all for serialport::TTYPort: on success
/// the whole four-byte frame was written to the device; a partial write is
/// reported as an error.
#[verifier::external_body]
fn write_port(port: &mut serialport::TTYPort, frame: &[u8; 4]) -> Result<(), std::io::Error> {
    std::io::Write::write_all(port, frame)
}

/// Relies on std::io::Read::read_exact for serialport::TTYPort: on success
/// the returned buffer holds exactly the next four bytes read from the
/// device; a timeout or short read is reported as an error.
#[verifier::external_body]
fn read_port(port: &mut serialport::TTYPort) -> Result<[u8; 4], std::io::Error> {
    let mut buf = [0u8; 4];
    match std::io::Read::read_exact(port, &mut buf) {
        Ok(()) => Ok(buf),
        Err(e) => Err(e),
    }
}

/// Relies on Display for serialport::Error: the error as text.
#[verifier::external_body]
fn serialport_error_text(e: &serialport::Error) -> String {
    format!("{}", e)
}

/// Relies on Display for std::io::Error: the error as text.
#[verifier::external_body]
fn io_error_text(e: &std::io::Error) -> String {
    format!("{}", e)
}

/// Owns one open serial handle for the life of the process.
pub struct SerialTransport {
    port: serialport::TTYPort,
}

impl SerialTransport {
    /// Opens the serial device at `path` at the given baud rate and fixes a
    /// five-second timeout on its reads and writes. Whether the device can
    /// be opened is the machine's to decide; a refusal is reported as an
    /// error value.
    pub fn open(path: &str, baud: u32) -> (r: Result<SerialTransport, TransportError>) {
        match open_port(path, baud) {
            Ok(port) => Ok(SerialTransport { port }),
            Err(e) => Err(TransportError { message: serialport_error_text(&e) }),
        }
    }

    /// Writes all four bytes of `frame`, or reports the failure; a partial
    /// write is never a success.
    pub fn write_exact(&mut self, frame: &[u8; 4]) -> (r: Result<(), TransportError>) {
        match write_port(&mut self.port, frame) {
            Ok(()) => Ok(()),
            Err(e) => Err(TransportError { message: io_error_text(&e) }),
        }
    }

    /// Reads exactly four bytes, or reports the failure; a read that
    /// outlives the timeout is an error, not a silent zero-fill.
    pub fn read_exact(&mut self) -> (r: Result<[u8; 4], TransportError>) {
        match read_port(&mut self.port) {
            Ok(frame) => Ok(frame),
            Err(e) => Err(TransportError { message: io_error_text(&e) }),
        }
    }
}

} // verus!
