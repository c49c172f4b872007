use vstd::prelude::*;
use serial2::SerialPort;
use crate::text::{encode_line, line_bytes};

verus! {

#[verifier::external_type_specification]
#[verifier::external_body]
pub struct ExSerialPort(SerialPort);

#[verifier::external_type_specification]
#[verifier::external_body]
pub struct ExIoError(std::io::Error);

/// How many bytes one read from the device may take at most.
pub const READ_CHUNK: usize = 64;

/// Relies on `serial2::SerialPort::open`: opens the named device and sets
/// its baud rate.
#[verifier::external_body]
fn open_port(path: &str, baud_rate: u32) -> (r: Result<SerialPort, std::io::Error>) {
    SerialPort::open(path, baud_rate)
}

/// Relies on `serial2::SerialPort::read`: fills the front of `buf` and says
/// how many bytes it filled, never more than `buf` holds.
#[verifier::external_body]
fn port_read(port: &SerialPort, buf: &mut Vec<u8>) -> (r: Result<usize, std::io::Error>)
    ensures
        final(buf)@.len() == old(buf)@.len(),
        r matches Ok(n) ==> n <= old(buf)@.len(),
{
    port.read(buf.as_mut_slice())
}

/// Relies on `serial2::SerialPort::write_all`: hands all of `buf` to the
/// device, or fails.
#[verifier::external_body]
fn port_write_all(port: &SerialPort, buf: &[u8]) -> (r: Result<(), std::io::Error>) {
    port.write_all(buf)
}

/// Why an operation on the device link failed.
#[derive(Debug, Clone, Copy, PartialEq, Eq, Structural)]
pub enum SerialError {
    /// The device could not be opened.
    Open,
    /// A read from the device failed.
    Read,
    /// A write to the device failed.
    Write,
}

/// Sole owner of the device link. Every read and write takes the bridge
/// mutably, so a write is never interleaved with another write or a read.
pub struct SerialBridge {
    port: SerialPort,
    sent: Ghost<Seq<Seq<u8>>>,
}

impl SerialBridge {
    /// The lines whose write the device link reported complete, in order,
    /// each as one contiguous block of bytes.
    pub closed spec fn sent_lines(&self) -> Seq<Seq<u8>> {
        self.sent@
    }

    /// Opens the device at `path` with the given baud rate.
    pub fn open(path: &str, baud_rate: u32) -> (r: Result<SerialBridge, SerialError>)
        ensures
            match r {
                Ok(b) => b.sent_lines() == Seq::<Seq<u8>>::empty(),
                Err(e) => e == SerialError::Open,
            },
    {
        match open_port(path, baud_rate) {
            Ok(port) => Ok(SerialBridge { port, sent: Ghost(Seq::empty()) }),
            Err(_) => Err(SerialError::Open),
        }
    }

    /// Writes `text` and a newline to the device in one write.
    pub fn write_line(&mut self, text: &str) -> (r: Result<(), SerialError>)
        ensures
            r is Ok ==> final(self).sent_lines() == old(self).sent_lines().push(line_bytes(text@)),
            r is Err ==> r == Err::<(), SerialError>(SerialError::Write)
                && final(self).sent_lines() == old(self).sent_lines(),
    {
        let line = encode_line(text);
        match port_write_all(&self.port, line.as_slice()) {
            Ok(()) => {
                self.sent = Ghost(self.sent@.push(line@));
                Ok(())
            },
            Err(_) => Err(SerialError::Write),
        }
    }

    /// Reads what the device has sent, at most `READ_CHUNK` bytes.
    pub fn read_chunk(&mut self) -> (r: Result<Vec<u8>, SerialError>)
        ensures
            final(self).sent_lines() == old(self).sent_lines(),
            match r {
                Ok(bytes) => bytes@.len() <= READ_CHUNK,
                Err(e) => e == SerialError::Read,
            },
    {
        let mut buf: Vec<u8> = Vec::new();
        let mut i: usize = 0;
        while i < READ_CHUNK
            invariant
                i <= READ_CHUNK,
                buf@.len() == i,
            decreases READ_CHUNK - i,
        {
            buf.push(0u8);
            i = i + 1;
        }
        match port_read(&self.port, &mut buf) {
            Ok(n) => {
                buf.truncate(n);
                Ok(buf)
            },
            Err(_) => Err(SerialError::Read),
        }
    }
}

} // verus!
