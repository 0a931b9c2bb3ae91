//! Analog sensing: the supply voltage sample.
use vstd::prelude::*;

use crate::bounded::{bytes_of, items, Bytes};
use crate::control::CommandError;

verus! {

#[derive(Debug, Clone, Copy, PartialEq, Eq)]
pub enum Command {
    ReadVdd,
}

/// The opcode of the analog-sense domain.
pub const READ_VDD: u8 = 0x50;

/// What an analog-sense frame decodes to: only `[0x50]` is one.
pub open spec fn decode(buf: Seq<u8>) -> Result<Command, CommandError> {
    if buf == seq![READ_VDD] {
        Ok(Command::ReadVdd)
    } else {
        Err(CommandError::Invalid)
    }
}

/// The two bytes of `x` in little-endian order.
pub open spec fn le_bytes(x: u16) -> Seq<u8> {
    seq![(x % 256) as u8, (x / 256) as u8]
}

/// The reason reported when a conversion fails.
pub open spec fn fault() -> CommandError {
    CommandError::Message("ADC Read Error")
}

impl Command {
    pub fn from_bytes(buf: &[u8]) -> (r: Result<Self, CommandError>)
        ensures
            r == decode(buf@),
    {
        if buf.len() == 1 && buf[0] == READ_VDD {
            proof {
                assert(buf@ =~= seq![READ_VDD]);
            }
            Ok(Command::ReadVdd)
        } else {
            Err(CommandError::Invalid)
        }
    }

    /// Builds the answer from the outcome of one conversion: the raw sample
    /// as two little-endian bytes, or the fault.
    pub fn handle(&self, sample: Result<u16, ()>) -> (r: Result<Bytes, CommandError>)
        ensures
            match sample {
                Ok(x) => (r matches Ok(v) && items(v) == le_bytes(x)),
                Err(_) => r == Err::<Bytes, CommandError>(fault()),
            },
    {
        match sample {
            Ok(x) => {
                let bytes = [(x % 256) as u8, (x / 256) as u8];
                proof {
                    assert(bytes@ =~= le_bytes(x));
                }
                Ok(bytes_of(&bytes))
            },
            Err(_) => Err(CommandError::Message("ADC Read Error")),
        }
    }
}

/// A sample's answer is two bytes whose little-endian value is the sample.
pub proof fn lemma_sample_round_trip(x: u16)
    ensures
        le_bytes(x).len() == 2,
        le_bytes(x)[0] as int + 256 * le_bytes(x)[1] as int == x as int,
{
}

} // verus!
