//! Addressing modes, and the mode that each opcode byte selects.
use vstd::prelude::*;
use crate::instructions::{decode_spec, decode_instruction};

verus! {

/// How an instruction finds its operand.
#[derive(Clone, Copy, Debug, PartialEq, Eq, Structural)]
pub enum AddressingMode {
    Accumulator,
    AbsoluteX,
    AbsoluteY,
    Absolute,
    Immediate,
    Implied,
    Indirect,
    IndirectX,
    IndirectY,
    Relative,
    ZeroPage,
    ZeroPageX,
    ZeroPageY,
}

/// Number of operand bytes that follow the opcode.
pub open spec fn operand_len(m: AddressingMode) -> nat {
    match m {
        AddressingMode::Accumulator | AddressingMode::Implied => 0,
        AddressingMode::Absolute | AddressingMode::AbsoluteX | AddressingMode::AbsoluteY
        | AddressingMode::Indirect => 2,
        _ => 1,
    }
}

/// The mode of an opcode, or `None` for one that names no instruction.
pub open spec fn mode_of(byte: u8) -> Option<AddressingMode> {
    match decode_spec(byte) {
        Some(d) => Some(d.1),
        None => None,
    }
}

/// The addressing mode that the opcode `byte` selects; `None` for an opcode
/// that names no instruction.
pub fn decode(byte: u8) -> (r: Option<AddressingMode>)
    ensures
        r == mode_of(byte),
{
    match decode_instruction(byte) {
        Some((_, mode)) => Some(mode),
        None => None,
    }
}

} // verus!
