//! Digital I/O: the ASIC reset line (active low).
use vstd::prelude::*;

use crate::bounded::{bytes_of, items, Bytes};
use crate::control::CommandError;

verus! {

/// The output levels that the digital-I/O commands read and drive
/// (`true` is high).
#[derive(Debug, Clone, Copy, PartialEq, Eq)]
pub struct Pins {
    pub asic_resetn: bool,
}

#[derive(Debug, Clone, Copy, PartialEq, Eq)]
pub enum Command {
    SetAsicResetn { level: bool },
    GetAsicResetn,
}

/// The opcode of the digital-I/O domain.
pub const OPCODE: u8 = 0x00;

/// What a digital-I/O frame decodes to: `[0x00]` reads the level and
/// `[0x00, level]` sets it (any nonzero byte is high).
pub open spec fn decode(buf: Seq<u8>) -> Result<Command, CommandError> {
    if buf.len() == 1 && buf[0] == OPCODE {
        Ok(Command::GetAsicResetn)
    } else if buf.len() == 2 && buf[0] == OPCODE {
        Ok(Command::SetAsicResetn { level: buf[1] > 0 })
    } else {
        Err(CommandError::Invalid)
    }
}

/// The single byte that reports a level.
pub open spec fn level_byte(level: bool) -> u8 {
    if level { 1 } else { 0 }
}

impl Command {
    /// The level of the reset line once the command has run on `level`.
    pub open spec fn level_after(self, level: bool) -> bool {
        match self {
            Command::SetAsicResetn { level: l } => l,
            Command::GetAsicResetn => level,
        }
    }

    pub fn from_bytes(buf: &[u8]) -> (r: Result<Self, CommandError>)
        ensures
            r == decode(buf@),
    {
        if buf.len() == 1 && buf[0] == OPCODE {
            Ok(Command::GetAsicResetn)
        } else if buf.len() == 2 && buf[0] == OPCODE {
            Ok(Command::SetAsicResetn { level: buf[1] > 0 })
        } else {
            Err(CommandError::Invalid)
        }
    }

    /// Reads or drives the reset line and answers with its level as one byte.
    pub fn handle(&self, pins: &mut Pins) -> (r: Result<Bytes, CommandError>)
        ensures
            final(pins).asic_resetn == self.level_after(old(pins).asic_resetn),
            (r matches Ok(v) && items(v) == seq![level_byte(final(pins).asic_resetn)]),
    {
        let level = match self {
            Command::GetAsicResetn => pins.asic_resetn,
            Command::SetAsicResetn { level } => {
                pins.asic_resetn = *level;
                *level
            },
        };
        let byte: u8 = if level { 1 } else { 0 };
        Ok(bytes_of(&[byte]))
    }
}

/// Setting the level and then reading it back both answer with that level
/// (`[1]` for high): the read sees what the write left.
pub proof fn lemma_set_then_get(pins: Pins, level: bool)
    ensures
        ({
            let after_set = Command::SetAsicResetn { level }.level_after(pins.asic_resetn);
            let after_get = Command::GetAsicResetn.level_after(after_set);
            &&& after_set == level
            &&& after_get == level
            &&& seq![level_byte(after_set)] == seq![level_byte(level)]
            &&& seq![level_byte(after_get)] == seq![level_byte(level)]
        }),
        level_byte(true) == 1,
{
}

} // verus!
