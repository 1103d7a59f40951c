//! The instruction table: a closed set of controller commands, each a
//! fixed single-byte opcode produced by its own encoder.

use vstd::prelude::*;

verus! {

use crate::utils::Level;

/// A single-byte controller opcode.  Only the encoders of this module
/// construct one, so the protocol engine can trust that it carries a
/// valid controller command.
#[derive(Debug, Clone, Copy, PartialEq, Eq, Structural)]
pub struct CompiledInstr(pub(crate) u8);

impl CompiledInstr {
    /// The opcode byte the instruction encodes.
    pub closed spec fn opcode(self) -> u8 {
        self.0
    }

    /// Read the opcode byte back out.
    pub fn byte(&self) -> (r: u8)
        ensures
            r == self.opcode(),
    {
        self.0
    }
}

/// What a transfer delivers: a compiled instruction for the instruction
/// register, or a raw byte for the data register.
#[derive(Debug, Clone, Copy, PartialEq, Eq, Structural)]
pub enum Deliverable {
    Instr(CompiledInstr),
    Data(u8),
}

impl Deliverable {
    /// The byte that goes over the bus.
    pub open spec fn payload(self) -> u8 {
        match self {
            Deliverable::Instr(ci) => ci.opcode(),
            Deliverable::Data(b) => b,
        }
    }

    /// The level the register-select line must hold for this transfer:
    /// low selects the instruction register, high the data register.
    pub open spec fn register_level(self) -> Level {
        match self {
            Deliverable::Instr(_) => Level::Low,
            Deliverable::Data(_) => Level::High,
        }
    }
}

/// The "clear display" command.
#[derive(Debug)]
pub struct Clear;

impl Clear {
    /// Encode "clear display": opcode 0x01.
    pub fn compile() -> (r: CompiledInstr)
        ensures
            r.opcode() == 0x01,
    {
        CompiledInstr(0x01)
    }
}

/// The "return cursor home" command.
#[derive(Debug)]
pub struct ReturnHome;

impl ReturnHome {
    /// Encode "return cursor home": opcode 0x02.
    pub fn compile() -> (r: CompiledInstr)
        ensures
            r.opcode() == 0x02,
    {
        CompiledInstr(0x02)
    }
}

} // verus!
