//! The I2C bus master: bus frequency, write, read and write-read.
use vstd::prelude::*;

use vstd::slice::slice_subrange;

use crate::bounded::{bytes_as_slice, bytes_of, items, Bytes};
use crate::control::CommandError;

verus! {

#[derive(Debug, PartialEq)]
pub enum Command {
    SetFrequency { frequency: u32 },
    Write { addr: u8, buf: Bytes },
    Read { addr: u8, len: u8 },
    WriteRead { addr: u8, buf: Bytes, read_len: u8 },
}

pub const SET_FREQUENCY: u8 = 0x10;
pub const WRITE: u8 = 0x20;
pub const READ: u8 = 0x30;
pub const WRITE_READ: u8 = 0x40;

/// The most bytes a write or write-read payload may hold: a frame of at most
/// 256 bytes less the opcode and the address.
pub const PAYLOAD_CAPACITY: usize = 254;

/// The unsigned value of four bytes in little-endian order.
pub open spec fn le_u32(b0: u8, b1: u8, b2: u8, b3: u8) -> int {
    b0 as int + 256 * b1 as int + 65536 * b2 as int + 16777216 * b3 as int
}

/// The four bytes of `x` in little-endian order.
pub open spec fn le_bytes(x: u32) -> Seq<u8> {
    seq![
        (x % 256) as u8,
        ((x / 256) % 256) as u8,
        ((x / 65536) % 256) as u8,
        (x / 16777216) as u8,
    ]
}

/// The four bytes of `x` in little-endian order.
pub fn u32_le_bytes(x: u32) -> (r: [u8; 4])
    ensures
        r@ == le_bytes(x),
{
    let r = [(x % 256) as u8, ((x / 256) % 256) as u8, ((x / 65536) % 256) as u8, (x / 16777216) as u8];
    proof {
        assert(r@ =~= le_bytes(x));
    }
    r
}

/// Whether `buf` has the shape of an I2C frame: an opcode of the domain with
/// the fields that it takes.
pub open spec fn is_frame(buf: Seq<u8>) -> bool {
    ||| buf.len() == 5 && buf[0] == SET_FREQUENCY
    ||| buf.len() >= 2 && buf[0] == WRITE
    ||| buf.len() == 3 && buf[0] == READ
    ||| buf.len() >= 3 && buf[0] == WRITE_READ
}

/// The payload that a write or write-read frame carries.
pub open spec fn payload_of(buf: Seq<u8>) -> Seq<u8> {
    if buf[0] == WRITE {
        buf.subrange(2, buf.len() as int)
    } else {
        buf.subrange(2, buf.len() - 1)
    }
}

/// Why `buf` does not decode, if it does not.
pub open spec fn decode_error(buf: Seq<u8>) -> Option<CommandError> {
    if !is_frame(buf) {
        Some(CommandError::Invalid)
    } else if (buf[0] == WRITE || buf[0] == WRITE_READ) && payload_of(buf).len()
        > PAYLOAD_CAPACITY {
        Some(CommandError::BufferOverflow)
    } else {
        None
    }
}

/// Whether `c` is what the well-formed frame `buf` says.
pub open spec fn decodes_to(buf: Seq<u8>, c: Command) -> bool {
    match c {
        Command::SetFrequency { frequency } => buf[0] == SET_FREQUENCY && frequency == le_u32(
            buf[1],
            buf[2],
            buf[3],
            buf[4],
        ),
        Command::Write { addr, buf: p } => buf[0] == WRITE && addr == buf[1] && items(p)
            == payload_of(buf),
        Command::Read { addr, len } => buf[0] == READ && addr == buf[1] && len == buf[2],
        Command::WriteRead { addr, buf: p, read_len } => buf[0] == WRITE_READ && addr == buf[1]
            && items(p) == payload_of(buf) && read_len == buf[buf.len() - 1],
    }
}

/// The reason reported when the bus operation of `c` fails.
pub open spec fn fault(c: Command) -> CommandError {
    match c {
        Command::SetFrequency { .. } => CommandError::Message("I2C Set Frequency Error"),
        Command::Write { .. } => CommandError::Message("I2C Write Error"),
        Command::Read { .. } => CommandError::Message("I2C Read Error"),
        Command::WriteRead { .. } => CommandError::Message("I2C WriteRead Error"),
    }
}

/// Copies a payload into a bounded buffer, or reports that it does not fit.
fn payload(p: &[u8]) -> (r: Result<Bytes, CommandError>)
    ensures
        p@.len() > PAYLOAD_CAPACITY ==> r == Err::<Bytes, CommandError>(
            CommandError::BufferOverflow,
        ),
        p@.len() <= PAYLOAD_CAPACITY ==> (r matches Ok(v) && items(v) == p@),
{
    if p.len() > PAYLOAD_CAPACITY {
        Err(CommandError::BufferOverflow)
    } else {
        Ok(bytes_of(p))
    }
}

impl Command {
    /// A command as decoding makes it: its payload fits the capacity.
    pub open spec fn wf(&self) -> bool {
        match *self {
            Command::Write { buf, .. } => items(buf).len() <= PAYLOAD_CAPACITY,
            Command::WriteRead { buf, .. } => items(buf).len() <= PAYLOAD_CAPACITY,
            _ => true,
        }
    }

    /// How many bytes the bus operation of this command reads.
    pub open spec fn read_len(&self) -> nat {
        match *self {
            Command::Read { len, .. } => len as nat,
            Command::WriteRead { read_len, .. } => read_len as nat,
            _ => 0,
        }
    }

    /// What the command answers once its bus operation has succeeded and
    /// read `data`.
    pub open spec fn response(&self, data: Seq<u8>) -> Seq<u8> {
        match *self {
            Command::SetFrequency { frequency } => le_bytes(frequency),
            Command::Write { buf, .. } => seq![items(buf).len() as u8],
            _ => data,
        }
    }

    pub fn from_bytes(buf: &[u8]) -> (r: Result<Self, CommandError>)
        ensures
            match r {
                Ok(c) => decode_error(buf@) is None && decodes_to(buf@, c) && c.wf(),
                Err(e) => decode_error(buf@) == Some(e),
            },
    {
        let n = buf.len();
        if n == 5 && buf[0] == SET_FREQUENCY {
            let frequency: u32 = buf[1] as u32 + 256 * (buf[2] as u32) + 65536 * (buf[3] as u32)
                + 16777216 * (buf[4] as u32);
            Ok(Command::SetFrequency { frequency })
        } else if n >= 2 && buf[0] == WRITE {
            let p = slice_subrange(buf, 2, n);
            let b = payload(p)?;
            Ok(Command::Write { addr: buf[1], buf: b })
        } else if n == 3 && buf[0] == READ {
            Ok(Command::Read { addr: buf[1], len: buf[2] })
        } else if n >= 3 && buf[0] == WRITE_READ {
            let p = slice_subrange(buf, 2, n - 1);
            let b = payload(p)?;
            Ok(Command::WriteRead { addr: buf[1], buf: b, read_len: buf[n - 1] })
        } else {
            Err(CommandError::Invalid)
        }
    }

    /// Builds the answer to this command from the outcome of its bus
    /// operation: `Ok` with the bytes read (none for a frequency change or a
    /// write), or `Err` where the bus reported a fault.
    pub fn handle(&self, bus: Result<&[u8], ()>) -> (r: Result<Bytes, CommandError>)
        requires
            self.wf(),
            bus matches Ok(d) ==> d@.len() == self.read_len(),
        ensures
            match bus {
                Ok(d) => (r matches Ok(v) && items(v) == self.response(d@)),
                Err(_) => r == Err::<Bytes, CommandError>(fault(*self)),
            },
    {
        match bus {
            Err(_) => Err(self.fault()),
            Ok(data) => match self {
                Command::SetFrequency { frequency } => {
                    let bytes = u32_le_bytes(*frequency);
                    Ok(bytes_of(&bytes))
                },
                Command::Write { buf, .. } => {
                    let n = bytes_as_slice(buf).len();
                    Ok(bytes_of(&[n as u8]))
                },
                _ => Ok(bytes_of(data)),
            },
        }
    }

    fn fault(&self) -> (r: CommandError)
        ensures
            r == fault(*self),
    {
        match self {
            Command::SetFrequency { .. } => CommandError::Message("I2C Set Frequency Error"),
            Command::Write { .. } => CommandError::Message("I2C Write Error"),
            Command::Read { .. } => CommandError::Message("I2C Read Error"),
            Command::WriteRead { .. } => CommandError::Message("I2C WriteRead Error"),
        }
    }
}

} // verus!
