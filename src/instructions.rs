//! Instructions, and the decoding of an opcode byte into an instruction and
//! its addressing mode.
use vstd::prelude::*;
use crate::opcodes::AddressingMode;
use crate::register::{FLAG_C, FLAG_D, FLAG_I, FLAG_V};

verus! {

/// The instructions of the processor. `CLR` and `SET` carry the flag that
/// they clear or set.
#[derive(Clone, Copy, Debug, PartialEq, Eq, Structural)]
pub enum Instruction {
    ADC,
    AND,
    ASL,
    BCC,
    BCS,
    BEQ,
    BIT,
    BMI,
    BNE,
    BPL,
    BRK,
    BVC,
    BVS,
    CLR(u8),
    CMP,
    CPX,
    CPY,
    DEC,
    DEX,
    DEY,
    EOR,
    INC,
    INX,
    INY,
    JMP,
    JSR,
    LDA,
    LDX,
    LDY,
    LSR,
    NOP,
    ORA,
    PHA,
    PHP,
    PLA,
    PLP,
    ROL,
    ROR,
    RTI,
    RTS,
    SBC,
    SET(u8),
    STA,
    STX,
    STY,
    TAX,
    TAY,
    TSX,
    TXA,
    TXS,
    TYA,
}

// An opcode reads as `aaabbbcc`: `cc` picks a group, `aaa` the operation
// within it and `bbb` mostly the addressing mode.

/// Group `cc = 01`: the accumulator operations.
pub open spec fn alu_instruction(a: int) -> Instruction {
    if a == 0 {
        Instruction::ORA
    } else if a == 1 {
        Instruction::AND
    } else if a == 2 {
        Instruction::EOR
    } else if a == 3 {
        Instruction::ADC
    } else if a == 4 {
        Instruction::STA
    } else if a == 5 {
        Instruction::LDA
    } else if a == 6 {
        Instruction::CMP
    } else {
        Instruction::SBC
    }
}

/// The addressing modes of group `cc = 01`, by `bbb`.
pub open spec fn alu_mode(b: int) -> AddressingMode {
    if b == 0 {
        AddressingMode::IndirectX
    } else if b == 1 {
        AddressingMode::ZeroPage
    } else if b == 2 {
        AddressingMode::Immediate
    } else if b == 3 {
        AddressingMode::Absolute
    } else if b == 4 {
        AddressingMode::IndirectY
    } else if b == 5 {
        AddressingMode::ZeroPageX
    } else if b == 6 {
        AddressingMode::AbsoluteY
    } else {
        AddressingMode::AbsoluteX
    }
}

/// Group `cc = 10`: shifts, rotations, X register loads and stores,
/// increments and decrements of memory.
pub open spec fn rmw_instruction(a: int) -> Instruction {
    if a == 0 {
        Instruction::ASL
    } else if a == 1 {
        Instruction::ROL
    } else if a == 2 {
        Instruction::LSR
    } else if a == 3 {
        Instruction::ROR
    } else if a == 4 {
        Instruction::STX
    } else if a == 5 {
        Instruction::LDX
    } else if a == 6 {
        Instruction::DEC
    } else {
        Instruction::INC
    }
}

/// The memory modes of groups `cc = 10` and `cc = 00`, by `bbb`; the
/// instructions on X index by Y instead.
pub open spec fn memory_mode(b: int, by_y: bool) -> Option<AddressingMode> {
    if b == 0 {
        Some(AddressingMode::Immediate)
    } else if b == 1 {
        Some(AddressingMode::ZeroPage)
    } else if b == 3 {
        Some(AddressingMode::Absolute)
    } else if b == 5 {
        Some(if by_y { AddressingMode::ZeroPageY } else { AddressingMode::ZeroPageX })
    } else if b == 7 {
        Some(if by_y { AddressingMode::AbsoluteY } else { AddressingMode::AbsoluteX })
    } else {
        None
    }
}

/// Which values of `bbb` an instruction of group `cc = 10` admits.
pub open spec fn rmw_admits(a: int, b: int) -> bool {
    if a == 4 {
        b == 1 || b == 3 || b == 5
    } else if a == 5 {
        b == 0 || b == 1 || b == 3 || b == 5 || b == 7
    } else {
        b == 1 || b == 3 || b == 5 || b == 7
    }
}

pub open spec fn rmw_decode(a: int, b: int) -> Option<(Instruction, AddressingMode)> {
    if b == 2 {
        if a < 4 {
            Some((rmw_instruction(a), AddressingMode::Accumulator))
        } else if a == 4 {
            Some((Instruction::TXA, AddressingMode::Implied))
        } else if a == 5 {
            Some((Instruction::TAX, AddressingMode::Implied))
        } else if a == 6 {
            Some((Instruction::DEX, AddressingMode::Implied))
        } else {
            Some((Instruction::NOP, AddressingMode::Implied))
        }
    } else if b == 6 {
        if a == 4 {
            Some((Instruction::TXS, AddressingMode::Implied))
        } else if a == 5 {
            Some((Instruction::TSX, AddressingMode::Implied))
        } else {
            None
        }
    } else if rmw_admits(a, b) {
        Some((rmw_instruction(a), memory_mode(b, a == 4 || a == 5).unwrap()))
    } else {
        None
    }
}

/// The branches, by `aaa`: the flag tested, and the value that branches.
pub open spec fn branch_instruction(a: int) -> Instruction {
    if a == 0 {
        Instruction::BPL
    } else if a == 1 {
        Instruction::BMI
    } else if a == 2 {
        Instruction::BVC
    } else if a == 3 {
        Instruction::BVS
    } else if a == 4 {
        Instruction::BCC
    } else if a == 5 {
        Instruction::BCS
    } else if a == 6 {
        Instruction::BNE
    } else {
        Instruction::BEQ
    }
}

/// Group `cc = 00` with `bbb = 010`: stack and Y register operations.
pub open spec fn stack_instruction(a: int) -> Instruction {
    if a == 0 {
        Instruction::PHP
    } else if a == 1 {
        Instruction::PLP
    } else if a == 2 {
        Instruction::PHA
    } else if a == 3 {
        Instruction::PLA
    } else if a == 4 {
        Instruction::DEY
    } else if a == 5 {
        Instruction::TAY
    } else if a == 6 {
        Instruction::INY
    } else {
        Instruction::INX
    }
}

/// Group `cc = 00` with `bbb = 110`: flag operations and `TYA`.
pub open spec fn flag_instruction(a: int) -> Instruction {
    if a == 0 {
        Instruction::CLR(FLAG_C)
    } else if a == 1 {
        Instruction::SET(FLAG_C)
    } else if a == 2 {
        Instruction::CLR(FLAG_I)
    } else if a == 3 {
        Instruction::SET(FLAG_I)
    } else if a == 4 {
        Instruction::TYA
    } else if a == 5 {
        Instruction::CLR(FLAG_V)
    } else if a == 6 {
        Instruction::CLR(FLAG_D)
    } else {
        Instruction::SET(FLAG_D)
    }
}

/// The operations of group `cc = 00` that take a memory operand.
pub open spec fn control_instruction(a: int) -> Instruction {
    if a == 1 {
        Instruction::BIT
    } else if a == 4 {
        Instruction::STY
    } else if a == 5 {
        Instruction::LDY
    } else if a == 6 {
        Instruction::CPY
    } else {
        Instruction::CPX
    }
}

/// Which values of `bbb` those operations admit.
pub open spec fn control_admits(a: int, b: int) -> bool {
    if a == 1 {
        b == 1 || b == 3
    } else if a == 4 {
        b == 1 || b == 3 || b == 5
    } else if a == 5 {
        b == 0 || b == 1 || b == 3 || b == 5 || b == 7
    } else if a == 6 || a == 7 {
        b == 0 || b == 1 || b == 3
    } else {
        false
    }
}

pub open spec fn control_decode(a: int, b: int) -> Option<(Instruction, AddressingMode)> {
    if b == 4 {
        Some((branch_instruction(a), AddressingMode::Relative))
    } else if b == 2 {
        Some((stack_instruction(a), AddressingMode::Implied))
    } else if b == 6 {
        Some((flag_instruction(a), AddressingMode::Implied))
    } else if b == 0 && a == 0 {
        Some((Instruction::BRK, AddressingMode::Implied))
    } else if b == 0 && a == 1 {
        Some((Instruction::JSR, AddressingMode::Absolute))
    } else if b == 0 && a == 2 {
        Some((Instruction::RTI, AddressingMode::Implied))
    } else if b == 0 && a == 3 {
        Some((Instruction::RTS, AddressingMode::Implied))
    } else if b == 3 && a == 2 {
        Some((Instruction::JMP, AddressingMode::Absolute))
    } else if b == 3 && a == 3 {
        Some((Instruction::JMP, AddressingMode::Indirect))
    } else if control_admits(a, b) {
        Some((control_instruction(a), memory_mode(b, false).unwrap()))
    } else {
        None
    }
}

/// The instruction and addressing mode of an opcode, or `None` for an opcode
/// that names no instruction.
pub open spec fn decode_spec(op: u8) -> Option<(Instruction, AddressingMode)> {
    let a = op as int / 32;
    let b = (op as int / 4) % 8;
    let c = op as int % 4;
    if c == 1 {
        if a == 4 && b == 2 {
            None
        } else {
            Some((alu_instruction(a), alu_mode(b)))
        }
    } else if c == 2 {
        rmw_decode(a, b)
    } else if c == 0 {
        control_decode(a, b)
    } else {
        None
    }
}

/// Decodes an opcode into its instruction and addressing mode; `None` for
/// an opcode that names no instruction.
#[verifier::rlimit(100)]
pub fn decode_instruction(opcode: u8) -> (r: Option<(Instruction, AddressingMode)>)
    ensures
        r == decode_spec(opcode),
{
    match opcode {
        0x00 => Some((Instruction::BRK, AddressingMode::Implied)),
        0x01 => Some((Instruction::ORA, AddressingMode::IndirectX)),
        0x05 => Some((Instruction::ORA, AddressingMode::ZeroPage)),
        0x06 => Some((Instruction::ASL, AddressingMode::ZeroPage)),
        0x08 => Some((Instruction::PHP, AddressingMode::Implied)),
        0x09 => Some((Instruction::ORA, AddressingMode::Immediate)),
        0x0A => Some((Instruction::ASL, AddressingMode::Accumulator)),
        0x0D => Some((Instruction::ORA, AddressingMode::Absolute)),
        0x0E => Some((Instruction::ASL, AddressingMode::Absolute)),
        0x10 => Some((Instruction::BPL, AddressingMode::Relative)),
        0x11 => Some((Instruction::ORA, AddressingMode::IndirectY)),
        0x15 => Some((Instruction::ORA, AddressingMode::ZeroPageX)),
        0x16 => Some((Instruction::ASL, AddressingMode::ZeroPageX)),
        0x18 => Some((Instruction::CLR(FLAG_C), AddressingMode::Implied)),
        0x19 => Some((Instruction::ORA, AddressingMode::AbsoluteY)),
        0x1D => Some((Instruction::ORA, AddressingMode::AbsoluteX)),
        0x1E => Some((Instruction::ASL, AddressingMode::AbsoluteX)),
        0x20 => Some((Instruction::JSR, AddressingMode::Absolute)),
        0x21 => Some((Instruction::AND, AddressingMode::IndirectX)),
        0x24 => Some((Instruction::BIT, AddressingMode::ZeroPage)),
        0x25 => Some((Instruction::AND, AddressingMode::ZeroPage)),
        0x26 => Some((Instruction::ROL, AddressingMode::ZeroPage)),
        0x28 => Some((Instruction::PLP, AddressingMode::Implied)),
        0x29 => Some((Instruction::AND, AddressingMode::Immediate)),
        0x2A => Some((Instruction::ROL, AddressingMode::Accumulator)),
        0x2C => Some((Instruction::BIT, AddressingMode::Absolute)),
        0x2D => Some((Instruction::AND, AddressingMode::Absolute)),
        0x2E => Some((Instruction::ROL, AddressingMode::Absolute)),
        0x30 => Some((Instruction::BMI, AddressingMode::Relative)),
        0x31 => Some((Instruction::AND, AddressingMode::IndirectY)),
        0x35 => Some((Instruction::AND, AddressingMode::ZeroPageX)),
        0x36 => Some((Instruction::ROL, AddressingMode::ZeroPageX)),
        0x38 => Some((Instruction::SET(FLAG_C), AddressingMode::Implied)),
        0x39 => Some((Instruction::AND, AddressingMode::AbsoluteY)),
        0x3D => Some((Instruction::AND, AddressingMode::AbsoluteX)),
        0x3E => Some((Instruction::ROL, AddressingMode::AbsoluteX)),
        0x40 => Some((Instruction::RTI, AddressingMode::Implied)),
        0x41 => Some((Instruction::EOR, AddressingMode::IndirectX)),
        0x45 => Some((Instruction::EOR, AddressingMode::ZeroPage)),
        0x46 => Some((Instruction::LSR, AddressingMode::ZeroPage)),
        0x48 => Some((Instruction::PHA, AddressingMode::Implied)),
        0x49 => Some((Instruction::EOR, AddressingMode::Immediate)),
        0x4A => Some((Instruction::LSR, AddressingMode::Accumulator)),
        0x4C => Some((Instruction::JMP, AddressingMode::Absolute)),
        0x4D => Some((Instruction::EOR, AddressingMode::Absolute)),
        0x4E => Some((Instruction::LSR, AddressingMode::Absolute)),
        0x50 => Some((Instruction::BVC, AddressingMode::Relative)),
        0x51 => Some((Instruction::EOR, AddressingMode::IndirectY)),
        0x55 => Some((Instruction::EOR, AddressingMode::ZeroPageX)),
        0x56 => Some((Instruction::LSR, AddressingMode::ZeroPageX)),
        0x58 => Some((Instruction::CLR(FLAG_I), AddressingMode::Implied)),
        0x59 => Some((Instruction::EOR, AddressingMode::AbsoluteY)),
        0x5D => Some((Instruction::EOR, AddressingMode::AbsoluteX)),
        0x5E => Some((Instruction::LSR, AddressingMode::AbsoluteX)),
        0x60 => Some((Instruction::RTS, AddressingMode::Implied)),
        0x61 => Some((Instruction::ADC, AddressingMode::IndirectX)),
        0x65 => Some((Instruction::ADC, AddressingMode::ZeroPage)),
        0x66 => Some((Instruction::ROR, AddressingMode::ZeroPage)),
        0x68 => Some((Instruction::PLA, AddressingMode::Implied)),
        0x69 => Some((Instruction::ADC, AddressingMode::Immediate)),
        0x6A => Some((Instruction::ROR, AddressingMode::Accumulator)),
        0x6C => Some((Instruction::JMP, AddressingMode::Indirect)),
        0x6D => Some((Instruction::ADC, AddressingMode::Absolute)),
        0x6E => Some((Instruction::ROR, AddressingMode::Absolute)),
        0x70 => Some((Instruction::BVS, AddressingMode::Relative)),
        0x71 => Some((Instruction::ADC, AddressingMode::IndirectY)),
        0x75 => Some((Instruction::ADC, AddressingMode::ZeroPageX)),
        0x76 => Some((Instruction::ROR, AddressingMode::ZeroPageX)),
        0x78 => Some((Instruction::SET(FLAG_I), AddressingMode::Implied)),
        0x79 => Some((Instruction::ADC, AddressingMode::AbsoluteY)),
        0x7D => Some((Instruction::ADC, AddressingMode::AbsoluteX)),
        0x7E => Some((Instruction::ROR, AddressingMode::AbsoluteX)),
        0x81 => Some((Instruction::STA, AddressingMode::IndirectX)),
        0x84 => Some((Instruction::STY, AddressingMode::ZeroPage)),
        0x85 => Some((Instruction::STA, AddressingMode::ZeroPage)),
        0x86 => Some((Instruction::STX, AddressingMode::ZeroPage)),
        0x88 => Some((Instruction::DEY, AddressingMode::Implied)),
        0x8A => Some((Instruction::TXA, AddressingMode::Implied)),
        0x8C => Some((Instruction::STY, AddressingMode::Absolute)),
        0x8D => Some((Instruction::STA, AddressingMode::Absolute)),
        0x8E => Some((Instruction::STX, AddressingMode::Absolute)),
        0x90 => Some((Instruction::BCC, AddressingMode::Relative)),
        0x91 => Some((Instruction::STA, AddressingMode::IndirectY)),
        0x94 => Some((Instruction::STY, AddressingMode::ZeroPageX)),
        0x95 => Some((Instruction::STA, AddressingMode::ZeroPageX)),
        0x96 => Some((Instruction::STX, AddressingMode::ZeroPageY)),
        0x98 => Some((Instruction::TYA, AddressingMode::Implied)),
        0x99 => Some((Instruction::STA, AddressingMode::AbsoluteY)),
        0x9A => Some((Instruction::TXS, AddressingMode::Implied)),
        0x9D => Some((Instruction::STA, AddressingMode::AbsoluteX)),
        0xA0 => Some((Instruction::LDY, AddressingMode::Immediate)),
        0xA1 => Some((Instruction::LDA, AddressingMode::IndirectX)),
        0xA2 => Some((Instruction::LDX, AddressingMode::Immediate)),
        0xA4 => Some((Instruction::LDY, AddressingMode::ZeroPage)),
        0xA5 => Some((Instruction::LDA, AddressingMode::ZeroPage)),
        0xA6 => Some((Instruction::LDX, AddressingMode::ZeroPage)),
        0xA8 => Some((Instruction::TAY, AddressingMode::Implied)),
        0xA9 => Some((Instruction::LDA, AddressingMode::Immediate)),
        0xAA => Some((Instruction::TAX, AddressingMode::Implied)),
        0xAC => Some((Instruction::LDY, AddressingMode::Absolute)),
        0xAD => Some((Instruction::LDA, AddressingMode::Absolute)),
        0xAE => Some((Instruction::LDX, AddressingMode::Absolute)),
        0xB0 => Some((Instruction::BCS, AddressingMode::Relative)),
        0xB1 => Some((Instruction::LDA, AddressingMode::IndirectY)),
        0xB4 => Some((Instruction::LDY, AddressingMode::ZeroPageX)),
        0xB5 => Some((Instruction::LDA, AddressingMode::ZeroPageX)),
        0xB6 => Some((Instruction::LDX, AddressingMode::ZeroPageY)),
        0xB8 => Some((Instruction::CLR(FLAG_V), AddressingMode::Implied)),
        0xB9 => Some((Instruction::LDA, AddressingMode::AbsoluteY)),
        0xBA => Some((Instruction::TSX, AddressingMode::Implied)),
        0xBC => Some((Instruction::LDY, AddressingMode::AbsoluteX)),
        0xBD => Some((Instruction::LDA, AddressingMode::AbsoluteX)),
        0xBE => Some((Instruction::LDX, AddressingMode::AbsoluteY)),
        0xC0 => Some((Instruction::CPY, AddressingMode::Immediate)),
        0xC1 => Some((Instruction::CMP, AddressingMode::IndirectX)),
        0xC4 => Some((Instruction::CPY, AddressingMode::ZeroPage)),
        0xC5 => Some((Instruction::CMP, AddressingMode::ZeroPage)),
        0xC6 => Some((Instruction::DEC, AddressingMode::ZeroPage)),
        0xC8 => Some((Instruction::INY, AddressingMode::Implied)),
        0xC9 => Some((Instruction::CMP, AddressingMode::Immediate)),
        0xCA => Some((Instruction::DEX, AddressingMode::Implied)),
        0xCC => Some((Instruction::CPY, AddressingMode::Absolute)),
        0xCD => Some((Instruction::CMP, AddressingMode::Absolute)),
        0xCE => Some((Instruction::DEC, AddressingMode::Absolute)),
        0xD0 => Some((Instruction::BNE, AddressingMode::Relative)),
        0xD1 => Some((Instruction::CMP, AddressingMode::IndirectY)),
        0xD5 => Some((Instruction::CMP, AddressingMode::ZeroPageX)),
        0xD6 => Some((Instruction::DEC, AddressingMode::ZeroPageX)),
        0xD8 => Some((Instruction::CLR(FLAG_D), AddressingMode::Implied)),
        0xD9 => Some((Instruction::CMP, AddressingMode::AbsoluteY)),
        0xDD => Some((Instruction::CMP, AddressingMode::AbsoluteX)),
        0xDE => Some((Instruction::DEC, AddressingMode::AbsoluteX)),
        0xE0 => Some((Instruction::CPX, AddressingMode::Immediate)),
        0xE1 => Some((Instruction::SBC, AddressingMode::IndirectX)),
        0xE4 => Some((Instruction::CPX, AddressingMode::ZeroPage)),
        0xE5 => Some((Instruction::SBC, AddressingMode::ZeroPage)),
        0xE6 => Some((Instruction::INC, AddressingMode::ZeroPage)),
        0xE8 => Some((Instruction::INX, AddressingMode::Implied)),
        0xE9 => Some((Instruction::SBC, AddressingMode::Immediate)),
        0xEA => Some((Instruction::NOP, AddressingMode::Implied)),
        0xEC => Some((Instruction::CPX, AddressingMode::Absolute)),
        0xED => Some((Instruction::SBC, AddressingMode::Absolute)),
        0xEE => Some((Instruction::INC, AddressingMode::Absolute)),
        0xF0 => Some((Instruction::BEQ, AddressingMode::Relative)),
        0xF1 => Some((Instruction::SBC, AddressingMode::IndirectY)),
        0xF5 => Some((Instruction::SBC, AddressingMode::ZeroPageX)),
        0xF6 => Some((Instruction::INC, AddressingMode::ZeroPageX)),
        0xF8 => Some((Instruction::SET(FLAG_D), AddressingMode::Implied)),
        0xF9 => Some((Instruction::SBC, AddressingMode::AbsoluteY)),
        0xFD => Some((Instruction::SBC, AddressingMode::AbsoluteX)),
        0xFE => Some((Instruction::INC, AddressingMode::AbsoluteX)),
        _ => None,
    }
}

} // verus!
