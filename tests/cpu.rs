use neks::cpu::{CpuFault, CPU};
use neks::ines::RomFileParser;
use neks::instructions::Instruction;
use neks::opcodes::AddressingMode;
use neks::register::{Flags, FLAG_B, FLAG_C, FLAG_I, FLAG_N, FLAG_V, FLAG_Z};

/// A 32 KiB program image with `program` at 0x8000 and the reset vector
/// pointing there; `brk_vector` goes to 0xfffe.
fn machine(program: &[u8], brk_vector: u16) -> CPU {
    let mut image = vec![0x4e, 0x45, 0x53, 0x1a, 2, 0, 0, 0, 0, 0, 0, 0, 0, 0, 0, 0];
    let mut prg = vec![0xeau8; 0x8000];
    prg[..program.len()].copy_from_slice(program);
    prg[0x7ffc] = 0x00;
    prg[0x7ffd] = 0x80;
    prg[0x7ffe] = (brk_vector & 0xff) as u8;
    prg[0x7fff] = (brk_vector >> 8) as u8;
    image.extend_from_slice(&prg);
    let cartridge = RomFileParser::new(image).parse().unwrap();
    CPU::init(cartridge)
}

fn steps(cpu: &mut CPU, n: usize) {
    for _ in 0..n {
        cpu.step().unwrap();
    }
}

#[test]
fn power_on_reads_reset_vector() {
    let cpu = machine(&[], 0);
    assert_eq!(cpu.pc, 0x8000);
    assert_eq!(cpu.registers.a, 0);
    assert_eq!(cpu.registers.s, 0);
    assert_eq!(cpu.registers.p.bits(), 0);
    assert_eq!(cpu.memory.cycles, 0);
}

#[test]
fn compare_flags() {
    // LDA #$50; CMP #$10; LDA #$10; CMP #$50
    let mut cpu = machine(&[0xa9, 0x50, 0xc9, 0x10, 0xa9, 0x10, 0xc9, 0x50], 0);
    steps(&mut cpu, 2);
    assert!(cpu.registers.p.contains(FLAG_C));
    assert!(!cpu.registers.p.contains(FLAG_Z));
    assert_eq!(cpu.registers.a, 0x50);
    steps(&mut cpu, 2);
    assert!(!cpu.registers.p.contains(FLAG_C));
    assert_eq!(cpu.registers.a, 0x10);
}

#[test]
fn zero_page_x_wraps_within_zero_page() {
    // LDX #$02; LDA $FF,X
    let mut cpu = machine(&[0xa2, 0x02, 0xb5, 0xff], 0);
    cpu.poke(0x0001, 0x37);
    cpu.poke(0x0101, 0x99);
    steps(&mut cpu, 2);
    assert_eq!(cpu.address_line, 0x0001);
    assert_eq!(cpu.registers.a, 0x37);
}

#[test]
fn absolute_x_page_cross_reads_twice() {
    // LDX #$01; LDA $02FF,X
    let mut cpu = machine(&[0xa2, 0x01, 0xbd, 0xff, 0x02], 0);
    cpu.poke(0x0300, 0x42);
    cpu.poke(0x0200, 0x11);
    steps(&mut cpu, 1);
    assert_eq!(cpu.memory.cycles, 2);
    steps(&mut cpu, 1);
    assert_eq!(cpu.address_line, 0x0300);
    assert_eq!(cpu.registers.a, 0x42);
    // opcode, operand, high byte, the read before the fix-up, the read
    assert_eq!(cpu.memory.cycles, 7);
}

#[test]
fn absolute_x_without_page_cross() {
    // LDX #$01; LDA $0200,X
    let mut cpu = machine(&[0xa2, 0x01, 0xbd, 0x00, 0x02], 0);
    cpu.poke(0x0201, 0x24);
    steps(&mut cpu, 2);
    assert_eq!(cpu.registers.a, 0x24);
    assert_eq!(cpu.memory.cycles, 6);
}

#[test]
fn flags_round_trip_through_stack() {
    // LDA #$FF; PHA; PLP; PHP
    let mut cpu = machine(&[0xa9, 0xff, 0x48, 0x28, 0x08], 0);
    steps(&mut cpu, 4);
    assert_eq!(cpu.registers.p.bits(), 0xfb);
    assert_eq!(cpu.registers.s, 0xff);
    assert_eq!(cpu.peek(0x0000), 0xfb);
}

#[test]
fn add_sets_overflow_and_negative() {
    // CLC; LDA #$50; ADC #$50
    let mut cpu = machine(&[0x18, 0xa9, 0x50, 0x69, 0x50], 0);
    steps(&mut cpu, 3);
    assert_eq!(cpu.registers.a, 0xa0);
    assert!(cpu.registers.p.contains(FLAG_V));
    assert!(cpu.registers.p.contains(FLAG_N));
    assert!(!cpu.registers.p.contains(FLAG_C));
    assert_eq!(cpu.pc, 0x8005);
}

#[test]
fn bit_copies_bits_six_and_seven() {
    // LDA #$01; BIT $10
    let mut cpu = machine(&[0xa9, 0x01, 0x24, 0x10], 0);
    cpu.poke(0x0010, 0xc0);
    steps(&mut cpu, 2);
    assert!(cpu.registers.p.contains(FLAG_V));
    assert!(cpu.registers.p.contains(FLAG_C));
    assert!(cpu.registers.p.contains(FLAG_Z));
    assert_eq!(cpu.registers.a, 0x01);
}

#[test]
fn countdown_loop_with_branch() {
    // LDX #$03; DEX; BNE -3
    let mut cpu = machine(&[0xa2, 0x03, 0xca, 0xd0, 0xfd], 0);
    steps(&mut cpu, 7);
    assert_eq!(cpu.registers.x, 0);
    assert!(cpu.registers.p.contains(FLAG_Z));
    assert_eq!(cpu.pc, 0x8005);
}

#[test]
fn subroutine_call_and_return() {
    // JSR $8010 ... at $8010: RTS
    let mut program = vec![0x20, 0x10, 0x80];
    program.resize(0x10, 0xea);
    program.push(0x60);
    let mut cpu = machine(&program, 0);
    steps(&mut cpu, 1);
    assert_eq!(cpu.pc, 0x8010);
    assert_eq!(cpu.registers.s, 0xfe);
    assert_eq!(cpu.peek(0x0000), 0x80);
    assert_eq!(cpu.peek(0x00ff), 0x02);
    steps(&mut cpu, 1);
    assert_eq!(cpu.pc, 0x8003);
    assert_eq!(cpu.registers.s, 0x00);
}

#[test]
fn break_pushes_state_and_jumps_through_vector() {
    let mut cpu = machine(&[0x00, 0x00], 0x9000);
    steps(&mut cpu, 1);
    assert_eq!(cpu.pc, 0x9000);
    assert!(cpu.registers.p.contains(FLAG_B));
    assert!(!cpu.registers.p.contains(FLAG_I));
    assert_eq!(cpu.peek(0x0000), 0x80);
    assert_eq!(cpu.peek(0x00ff), 0x02);
    assert_eq!(cpu.peek(0x00fe), FLAG_B);
    assert_eq!(cpu.registers.s, 0xfd);
}

#[test]
fn one_byte_instruction_moves_pc_by_one() {
    // TAX; INX; TXA
    let mut cpu = machine(&[0xaa, 0xe8, 0x8a], 0);
    steps(&mut cpu, 3);
    assert_eq!(cpu.pc, 0x8003);
    assert_eq!(cpu.registers.a, 1);
    assert_eq!(cpu.registers.x, 1);
}

#[test]
fn store_and_shift_memory() {
    // LDA #$81; STA $0400; ASL $0400
    let mut cpu = machine(&[0xa9, 0x81, 0x8d, 0x00, 0x04, 0x0e, 0x00, 0x04], 0);
    steps(&mut cpu, 3);
    assert_eq!(cpu.peek(0x0400), 0x02);
    // the RAM is mirrored every 0x800 bytes
    assert_eq!(cpu.peek(0x0c00), 0x02);
    assert!(cpu.registers.p.contains(FLAG_C));
}

#[test]
fn illegal_opcode_stops_the_processor() {
    let mut cpu = machine(&[0x02], 0);
    cpu.is_running = true;
    assert_eq!(cpu.step(), Err(CpuFault::IllegalOpcode { opcode: 0x02, address: 0x8000 }));
    assert!(!cpu.is_running);
}

#[test]
fn unsupported_mode_is_a_fault() {
    let mut cpu = machine(&[], 0);
    let before = cpu.pc;
    assert_eq!(
        cpu.execute(Instruction::JMP, AddressingMode::Immediate),
        Err(CpuFault::UnsupportedMode { instruction: Instruction::JMP, mode: AddressingMode::Immediate })
    );
    assert_eq!(cpu.pc, before);
}

#[test]
fn run_stops_at_fault_or_budget() {
    let mut cpu = machine(&[0xea, 0xea, 0x02], 0);
    assert!(!cpu.is_running);
    assert_eq!(cpu.run(1), Ok(1));
    assert!(cpu.is_running);
    assert_eq!(cpu.run(5), Err(CpuFault::IllegalOpcode { opcode: 0x02, address: 0x8002 }));
    assert!(!cpu.is_running);
}

#[test]
fn transfers_and_pulls_leave_flags() {
    // LDA #$00; LDX #$01; TAX; PHA; LDA #$05; PLA
    let mut cpu = machine(&[0xa9, 0x00, 0xa2, 0x01, 0xaa, 0x48, 0xa9, 0x05, 0x68], 0);
    steps(&mut cpu, 3);
    assert_eq!(cpu.registers.x, 0);
    assert!(!cpu.registers.p.contains(FLAG_Z));
    steps(&mut cpu, 3);
    assert_eq!(cpu.registers.a, 0);
    assert!(!cpu.registers.p.contains(FLAG_Z));
}

#[test]
fn flags_from_byte_truncate() {
    assert_eq!(u8::from(Flags::from(0xff)), 0xfb);
    assert_eq!(u8::from(Flags::from(0x04)), 0x00);
    assert_eq!(u8::from(Flags::from(0x81)), 0x81);
}

#[test]
fn calculate_address_zero_page_x() {
    // LDX #$02, then an operand byte of $FF
    let mut cpu = machine(&[0xa2, 0x02, 0xea, 0xff], 0);
    steps(&mut cpu, 1);
    cpu.next_opcode = 0xff;
    cpu.calculate_address(AddressingMode::ZeroPageX);
    assert_eq!(cpu.address_line, 0x0001);
}
