//! The opcodes of the panel controller.

use vstd::prelude::*;

verus! {

/// The commands that the driver knows by name.
#[derive(Clone, Copy, Debug, PartialEq, Eq, Structural)]
pub enum Instruction {
    /// No operation.
    NOP,
    /// Software reset.
    SWRESET,
    /// Enter sleep mode.
    SLPIN,
    /// Leave sleep mode.
    SLPOUT,
    /// Display inversion off.
    INVOFF,
    /// Display inversion on.
    INVON,
    /// Display off.
    DISPOFF,
    /// Display on.
    DISPON,
    /// Column address set.
    CASET,
    /// Row address set.
    RASET,
    /// Memory write.
    RAMWR,
    /// Memory read.
    RAMRD,
    /// Memory access control.
    MADCTL,
}

impl Instruction {
    /// The byte that stands for this command on the bus.
    pub open spec fn spec_opcode(self) -> u8 {
        match self {
            Instruction::NOP => 0x00,
            Instruction::SWRESET => 0x01,
            Instruction::SLPIN => 0x10,
            Instruction::SLPOUT => 0x11,
            Instruction::INVOFF => 0x20,
            Instruction::INVON => 0x21,
            Instruction::DISPOFF => 0x28,
            Instruction::DISPON => 0x29,
            Instruction::CASET => 0x2A,
            Instruction::RASET => 0x2B,
            Instruction::RAMWR => 0x2C,
            Instruction::RAMRD => 0x2E,
            Instruction::MADCTL => 0x36,
        }
    }

    /// The byte that stands for this command on the bus.
    #[verifier::when_used_as_spec(spec_opcode)]
    pub fn opcode(self) -> (byte: u8)
        ensures
            byte == self.spec_opcode(),
    {
        match self {
            Instruction::NOP => 0x00,
            Instruction::SWRESET => 0x01,
            Instruction::SLPIN => 0x10,
            Instruction::SLPOUT => 0x11,
            Instruction::INVOFF => 0x20,
            Instruction::INVON => 0x21,
            Instruction::DISPOFF => 0x28,
            Instruction::DISPON => 0x29,
            Instruction::CASET => 0x2A,
            Instruction::RASET => 0x2B,
            Instruction::RAMWR => 0x2C,
            Instruction::RAMRD => 0x2E,
            Instruction::MADCTL => 0x36,
        }
    }
}

} // verus!
