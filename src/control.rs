//! The command protocol: decoding frames and handling commands.
use vstd::prelude::*;

pub mod adc;
pub mod gpio;
pub mod i2c;

use vstd::arithmetic::div_mod::lemma_fundamental_div_mod_converse;

use crate::bounded::{items, Bytes};

verus! {

/// What can go wrong while decoding or handling a command.
#[derive(Debug, Clone, Copy, PartialEq, Eq)]
pub enum CommandError {
    /// The opcode or the shape of the frame is not recognized.
    Invalid,
    /// A payload does not fit its fixed capacity.
    BufferOverflow,
    /// A peripheral operation failed, for the given reason.
    Message(&'static str),
}

/// A decoded command, one variant per peripheral domain.
#[derive(Debug, PartialEq)]
pub enum Command {
    Gpio(gpio::Command),
    I2c(i2c::Command),
    Adc(adc::Command),
}

/// Whether `op` is the opcode of some domain.
pub open spec fn is_opcode(op: u8) -> bool {
    op == gpio::OPCODE || op == i2c::SET_FREQUENCY || op == i2c::WRITE || op == i2c::READ || op
        == i2c::WRITE_READ || op == adc::READ_VDD
}

/// Whether `c` is what `buf` decodes to: the domain is chosen by the opcode,
/// and the domain's decoder gives the command.
pub open spec fn decodes_to(buf: Seq<u8>, c: Command) -> bool {
    match c {
        Command::Gpio(g) => gpio::decode(buf) == Ok::<gpio::Command, CommandError>(g),
        Command::I2c(i) => i2c::decode_error(buf) is None && i2c::decodes_to(buf, i) && i.wf(),
        Command::Adc(a) => adc::decode(buf) == Ok::<adc::Command, CommandError>(a),
    }
}

/// Why `buf` does not decode, if it does not.
pub open spec fn decode_error(buf: Seq<u8>) -> Option<CommandError> {
    if buf.len() == 0 || !is_opcode(buf[0]) {
        Some(CommandError::Invalid)
    } else if buf[0] == gpio::OPCODE {
        match gpio::decode(buf) {
            Ok(_) => None,
            Err(e) => Some(e),
        }
    } else if buf[0] == adc::READ_VDD {
        match adc::decode(buf) {
            Ok(_) => None,
            Err(e) => Some(e),
        }
    } else {
        i2c::decode_error(buf)
    }
}

impl Command {
    /// Decodes one whole frame into the command of its domain.
    pub fn from_bytes(buf: &[u8]) -> (r: Result<Self, CommandError>)
        ensures
            match r {
                Ok(c) => decode_error(buf@) is None && decodes_to(buf@, c),
                Err(e) => decode_error(buf@) == Some(e),
            },
    {
        if buf.len() == 0 {
            return Err(CommandError::Invalid);
        }
        let op = buf[0];
        if op == gpio::OPCODE {
            match gpio::Command::from_bytes(buf) {
                Ok(c) => Ok(Command::Gpio(c)),
                Err(e) => Err(e),
            }
        } else if op == i2c::SET_FREQUENCY || op == i2c::WRITE || op == i2c::READ || op
            == i2c::WRITE_READ {
            match i2c::Command::from_bytes(buf) {
                Ok(c) => Ok(Command::I2c(c)),
                Err(e) => Err(e),
            }
        } else if op == adc::READ_VDD {
            match adc::Command::from_bytes(buf) {
                Ok(c) => Ok(Command::Adc(c)),
                Err(e) => Err(e),
            }
        } else {
            Err(CommandError::Invalid)
        }
    }
}

/// What the hardware reported for the operation of a bus or analog command;
/// a digital-I/O command needs no report.
pub enum Outcome<'a> {
    Nothing,
    /// The bus operation's result: the bytes read (none for a frequency
    /// change or a write), or a fault.
    Bus(Result<&'a [u8], ()>),
    /// The conversion's result: the raw sample, or a fault.
    Sample(Result<u16, ()>),
}

impl Command {
    /// Whether `outcome` is a report of this command's own operation.
    pub open spec fn reported_by(&self, outcome: Outcome) -> bool {
        match *self {
            Command::Gpio(_) => outcome is Nothing,
            Command::I2c(c) => c.wf() && (outcome matches Outcome::Bus(b) && (b matches Ok(d)
                ==> d@.len() == c.read_len())),
            Command::Adc(_) => outcome is Sample,
        }
    }

    /// Hands the command to the controller of its domain.
    pub fn handle(&self, pins: &mut gpio::Pins, outcome: Outcome) -> (r: Result<Bytes, CommandError>)
        requires
            self.reported_by(outcome),
        ensures
            match *self {
                Command::Gpio(c) => {
                    &&& final(pins).asic_resetn == c.level_after(old(pins).asic_resetn)
                    &&& r matches Ok(v) && items(v) == seq![gpio::level_byte(final(pins).asic_resetn)]
                },
                Command::I2c(c) => {
                    &&& *final(pins) == *old(pins)
                    &&& match outcome {
                        Outcome::Bus(Ok(d)) => (r matches Ok(v) && items(v) == c.response(d@)),
                        _ => r == Err::<Bytes, CommandError>(i2c::fault(c)),
                    }
                },
                Command::Adc(_) => {
                    &&& *final(pins) == *old(pins)
                    &&& match outcome {
                        Outcome::Sample(Ok(x)) => (r matches Ok(v) && items(v) == adc::le_bytes(x)),
                        _ => r == Err::<Bytes, CommandError>(adc::fault()),
                    }
                },
            },
    {
        match self {
            Command::Gpio(c) => c.handle(pins),
            Command::I2c(c) => match outcome {
                Outcome::Bus(b) => c.handle(b),
                _ => Err(CommandError::Invalid),
            },
            Command::Adc(c) => match outcome {
                Outcome::Sample(x) => c.handle(x),
                _ => Err(CommandError::Invalid),
            },
        }
    }
}

/// A frame whose leading byte is no opcode is `Invalid`.
pub proof fn lemma_unknown_opcode(buf: Seq<u8>)
    requires
        buf.len() > 0,
        !is_opcode(buf[0]),
    ensures
        decode_error(buf) == Some(CommandError::Invalid),
{
}

/// A write or write-read frame whose payload is longer than the capacity is
/// `BufferOverflow`, never `Invalid`.
pub proof fn lemma_payload_overflow(buf: Seq<u8>)
    requires
        buf.len() >= 3,
        buf[0] == i2c::WRITE || buf[0] == i2c::WRITE_READ,
        i2c::payload_of(buf).len() > i2c::PAYLOAD_CAPACITY,
    ensures
        decode_error(buf) == Some(CommandError::BufferOverflow),
{
}

/// Whether `buf` decodes, and to `c`.
pub open spec fn decodes_exactly(buf: Seq<u8>, c: Command) -> bool {
    decode_error(buf) is None && decodes_to(buf, c)
}

/// Each well-shaped frame decodes to the one command that its fields give.
pub proof fn lemma_well_shaped_frames(buf: Seq<u8>, frequency: u32, payload: Bytes)
    requires
        buf.len() > 0,
    ensures
        buf =~= seq![0x00u8] ==> decodes_exactly(buf, Command::Gpio(gpio::Command::GetAsicResetn)),
        buf.len() == 2 && buf[0] == 0x00 ==> decodes_exactly(
            buf,
            Command::Gpio((gpio::Command::SetAsicResetn { level: buf[1] != 0 })),
        ),
        buf.len() == 5 && buf[0] == 0x10 && frequency == i2c::le_u32(buf[1], buf[2], buf[3], buf[4])
            ==> decodes_exactly(buf, Command::I2c((i2c::Command::SetFrequency { frequency }))),
        buf.len() == 3 && buf[0] == 0x30 ==> decodes_exactly(
            buf,
            Command::I2c((i2c::Command::Read { addr: buf[1], len: buf[2] })),
        ),
        buf.len() >= 2 && buf[0] == 0x20 && buf.len() <= 256 && items(payload) == buf.subrange(
            2,
            buf.len() as int,
        ) ==> decodes_exactly(buf, Command::I2c((i2c::Command::Write { addr: buf[1], buf: payload }))),
        buf.len() >= 3 && buf[0] == 0x40 && buf.len() <= 257 && items(payload) == buf.subrange(
            2,
            buf.len() - 1,
        ) ==> decodes_exactly(
            buf,
            Command::I2c((i2c::Command::WriteRead { addr: buf[1], buf: payload, read_len: buf.last() })),
        ),
        buf =~= seq![0x50u8] ==> decodes_exactly(buf, Command::Adc(adc::Command::ReadVdd)),
{
}

/// A frequency change answers with exactly the four bytes it was given.
pub proof fn lemma_frequency_echo(b0: u8, b1: u8, b2: u8, b3: u8, f: u32)
    requires
        f == i2c::le_u32(b0, b1, b2, b3),
    ensures
        (i2c::Command::SetFrequency { frequency: f }).response(Seq::empty()) == seq![b0, b1, b2, b3],
{
    let (x0, x1, x2, x3) = (b0 as int, b1 as int, b2 as int, b3 as int);
    lemma_fundamental_div_mod_converse(f as int, 256, x1 + 256 * x2 + 65536 * x3, x0);
    lemma_fundamental_div_mod_converse(x1 + 256 * x2 + 65536 * x3, 256, x2 + 256 * x3, x1);
    lemma_fundamental_div_mod_converse(f as int, 65536, x2 + 256 * x3, x0 + 256 * x1);
    lemma_fundamental_div_mod_converse(x2 + 256 * x3, 256, x3, x2);
    lemma_fundamental_div_mod_converse(f as int, 16777216, x3, x0 + 256 * x1 + 65536 * x2);
    assert(i2c::le_bytes(f) =~= seq![b0, b1, b2, b3]);
}

} // verus!
