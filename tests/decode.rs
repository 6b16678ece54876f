use neks::instructions::{decode_instruction, Instruction};
use neks::opcodes::{decode, AddressingMode};
use neks::register::{FLAG_C, FLAG_V};

#[test]
fn decodes_documented_opcodes() {
    assert_eq!(decode_instruction(0xa9), Some((Instruction::LDA, AddressingMode::Immediate)));
    assert_eq!(decode_instruction(0xbd), Some((Instruction::LDA, AddressingMode::AbsoluteX)));
    assert_eq!(decode_instruction(0xb6), Some((Instruction::LDX, AddressingMode::ZeroPageY)));
    assert_eq!(decode_instruction(0x6c), Some((Instruction::JMP, AddressingMode::Indirect)));
    assert_eq!(decode_instruction(0x20), Some((Instruction::JSR, AddressingMode::Absolute)));
    assert_eq!(decode_instruction(0x0a), Some((Instruction::ASL, AddressingMode::Accumulator)));
    assert_eq!(decode_instruction(0x18), Some((Instruction::CLR(FLAG_C), AddressingMode::Implied)));
    assert_eq!(decode_instruction(0xb8), Some((Instruction::CLR(FLAG_V), AddressingMode::Implied)));
    assert_eq!(decode_instruction(0xd0), Some((Instruction::BNE, AddressingMode::Relative)));
}

#[test]
fn undocumented_opcodes_decode_to_none() {
    for op in [0x02u8, 0x03, 0x89, 0x80, 0x9e, 0xff] {
        assert_eq!(decode_instruction(op), None);
    }
    let defined = (0..=255u8).filter(|op| decode_instruction(*op).is_some()).count();
    assert_eq!(defined, 151);
}

#[test]
fn addressing_mode_of_opcode() {
    assert_eq!(decode(0x69), Some(AddressingMode::Immediate));
    assert_eq!(decode(0x71), Some(AddressingMode::IndirectY));
    assert_eq!(decode(0x61), Some(AddressingMode::IndirectX));
    assert_eq!(decode(0xea), Some(AddressingMode::Implied));
    assert_eq!(decode(0x02), None);
}
