//! The processor: fetch, decode and execute over the memory bus.
use vstd::prelude::*;
use crate::alu;
use crate::alu::{adc_spec, carry_value, signed};
use crate::instructions::{Instruction, decode_instruction, decode_spec};
use crate::ines::Cartridge;
use crate::memory::{BusState, MemoryBus, rom_image, lemma_ram_read, lemma_ram_write, lemma_tick_keeps, RAM_SIZE, ROM_SIZE, ROM_START};
use crate::ppu::{PpuState, DEFAULT_CPU_TICKS, DEFAULT_PPU_TICKS};
use crate::opcodes::{AddressingMode, operand_len};
use crate::register::{
    Flags, RegState, Registers, with_flag, has_flag, lemma_truncate_clears_unused,
    DEFINED_FLAGS, UNUSED_FLAGS, FLAG_B, FLAG_C,
    FLAG_N, FLAG_V, FLAG_Z,
};

verus! {

/// Where the program counter is read from at power-on.
pub const RESET_VECTOR: u16 = 0xfffc;
/// Where the program counter is read from on a break.
pub const BREAK_VECTOR: u16 = 0xfffe;

/// The address whose low byte is `low` and high byte `high`.
pub open spec fn le16(low: u8, high: u8) -> u16 {
    (high * 256 + low) as u16
}

/// A sixteen-bit sum, wrapping.
pub open spec fn add16(a: int, b: int) -> u16 {
    ((a + b) % 0x1_0000) as u16
}

/// An eight-bit sum, wrapping.
pub open spec fn add8(a: int, b: int) -> u8 {
    ((a + b) % 0x100) as u8
}

/// The target of a branch: the program counter plus the signed offset.
pub open spec fn relative_target(pc: u16, offset: u8) -> u16 {
    add16(pc as int, signed(offset))
}

/// Flags with zero and negative taken from `value`.
pub open spec fn zn(p: u8, value: u8) -> u8 {
    with_flag(with_flag(p, FLAG_Z, value == 0), FLAG_N, value >= 128)
}

/// The modes that locate an operand in memory.
pub open spec fn has_address(m: AddressingMode) -> bool {
    !(m is Accumulator || m is Immediate || m is Implied)
}

/// The modes that give a data operand: memory, immediate or the accumulator.
pub open spec fn has_operand(m: AddressingMode) -> bool {
    !(m is Implied || m is Relative)
}

/// The modes whose operand can be written back: memory or the accumulator.
pub open spec fn writable(m: AddressingMode) -> bool {
    m is Accumulator || (has_address(m) && !(m is Relative))
}

/// An instruction can run in a mode.
pub open spec fn supports(i: Instruction, m: AddressingMode) -> bool {
    match i {
        Instruction::ADC | Instruction::AND | Instruction::BIT | Instruction::CMP
        | Instruction::CPX | Instruction::CPY | Instruction::EOR | Instruction::LDA
        | Instruction::LDX | Instruction::LDY | Instruction::ORA | Instruction::SBC => has_operand(m),
        Instruction::ASL | Instruction::LSR | Instruction::ROL | Instruction::ROR => writable(m),
        Instruction::DEC | Instruction::INC | Instruction::STA | Instruction::STX
        | Instruction::STY => writable(m) && !(m is Accumulator),
        Instruction::JMP => m is Absolute || m is Indirect,
        Instruction::JSR => m is Absolute,
        Instruction::BCC | Instruction::BCS | Instruction::BEQ | Instruction::BMI
        | Instruction::BNE | Instruction::BPL | Instruction::BVC | Instruction::BVS => m is Relative,
        _ => m is Implied,
    }
}

/// Why the processor stopped.
#[derive(Clone, Copy, Debug, PartialEq, Eq, Structural)]
pub enum CpuFault {
    /// The opcode at `address` names no instruction.
    IllegalOpcode { opcode: u8, address: u16 },
    /// The instruction cannot run in the mode, or the mode gives no memory
    /// address where one is needed.
    UnsupportedMode { instruction: Instruction, mode: AddressingMode },
}

/// The processor as plain values.
pub ghost struct CpuState {
    pub regs: RegState,
    pub pc: u16,
    pub bus: BusState,
    pub address_line: u16,
    pub opcode: u8,
    pub next_opcode: u8,
    pub running: bool,
}

impl CpuState {
    pub open spec fn wf(self) -> bool {
        &&& self.bus.wf()
        &&& self.regs.p & UNUSED_FLAGS == 0
    }

    pub open spec fn with_regs(self, regs: RegState) -> CpuState {
        CpuState { regs, ..self }
    }

    pub open spec fn with_p(self, p: u8) -> CpuState {
        CpuState { regs: RegState { p, ..self.regs }, ..self }
    }

    /// A bus read at `address`.
    pub open spec fn read(self, address: u16) -> (CpuState, u8) {
        let (bus, value) = self.bus.read(address);
        (CpuState { bus, ..self }, value)
    }

    /// A bus write.
    pub open spec fn write(self, address: u16, value: u8) -> CpuState {
        CpuState { bus: self.bus.write(address, value), ..self }
    }

    /// The byte at the program counter, which then advances.
    pub open spec fn fetch(self) -> (CpuState, u8) {
        let (after, value) = self.read(self.pc);
        (CpuState { pc: add16(self.pc as int, 1), ..after }, value)
    }

    /// Zero and negative from `value`.
    pub open spec fn set_zn(self, value: u8) -> CpuState {
        self.with_p(zn(self.regs.p, value))
    }

    /// Zero, negative and carry.
    pub open spec fn set_znc(self, value: u8, carry: bool) -> CpuState {
        self.with_p(with_flag(zn(self.regs.p, value), FLAG_C, carry))
    }

    /// Zero, negative, carry and overflow.
    pub open spec fn set_zncv(self, value: u8, carry: bool, overflow: bool) -> CpuState {
        self.with_p(with_flag(with_flag(zn(self.regs.p, value), FLAG_C, carry), FLAG_V, overflow))
    }

    /// A push: the byte goes to the stack address, then the pointer
    /// decrements.
    pub open spec fn push(self, value: u8) -> CpuState {
        let after = self.write(self.regs.s as u16, value);
        CpuState { regs: RegState { s: add8(self.regs.s as int, 255), ..after.regs }, ..after }
    }

    /// A pull: the pointer increments, then the byte is read there.
    pub open spec fn pull(self) -> (CpuState, u8) {
        let s = add8(self.regs.s as int, 1);
        let moved = CpuState { regs: RegState { s, ..self.regs }, ..self };
        moved.read(s as u16)
    }

    /// Two pushes: the high byte, then the low byte.
    pub open spec fn push16(self, value: u16) -> CpuState {
        self.push((value / 256) as u8).push((value % 256) as u8)
    }

    /// Two pulls: the low byte, then the high byte.
    pub open spec fn pull16(self) -> (CpuState, u16) {
        let (first, low) = self.pull();
        let (second, high) = first.pull();
        (second, le16(low, high))
    }

    /// Indexing the address `high:low` by `index`. When the low byte carries,
    /// the address before the high byte is corrected is read first and the
    /// value dropped.
    pub open spec fn indexed(self, low: u8, high: u8, index: u8) -> CpuState {
        let after = if low + index >= 256 {
            self.read(le16(add8(low as int, index as int), high)).0
        } else {
            self
        };
        CpuState { address_line: add16(le16(low, high) as int, index as int), ..after }
    }

    /// Zero page indexed: the base is read and dropped, then the index is
    /// added within the zero page.
    pub open spec fn zero_page_indexed(self, index: u8) -> CpuState {
        let after = self.read(self.next_opcode as u16).0;
        CpuState { address_line: add8(self.next_opcode as int, index as int) as u16, ..after }
    }

    /// Absolute: the high byte is fetched.
    pub open spec fn absolute(self) -> CpuState {
        let (after, high) = self.fetch();
        CpuState { address_line: le16(self.next_opcode, high), ..after }
    }

    /// Absolute indexed.
    pub open spec fn absolute_indexed(self, index: u8) -> CpuState {
        let (after, high) = self.fetch();
        after.indexed(self.next_opcode, high, index)
    }

    /// Indirect: the address is read at the absolute pointer.
    pub open spec fn indirect(self) -> CpuState {
        let (after, high) = self.fetch();
        let pointer = le16(self.next_opcode, high);
        let (first, low) = after.read(pointer);
        let (second, high) = first.read(add16(pointer as int, 1));
        CpuState { address_line: le16(low, high), ..second }
    }

    /// Pre-indexed indirect: the base is read and dropped, X is added within
    /// the zero page, and the address is read there.
    pub open spec fn indirect_x(self) -> CpuState {
        let after = self.read(self.next_opcode as u16).0;
        let pointer = add8(self.next_opcode as int, self.regs.x as int);
        let (first, low) = after.read(pointer as u16);
        let (second, high) = first.read(add8(pointer as int, 1) as u16);
        CpuState { address_line: le16(low, high), ..second }
    }

    /// Post-indexed indirect: the address read in the zero page, indexed
    /// by Y.
    pub open spec fn indirect_y(self) -> CpuState {
        let (first, low) = self.read(self.next_opcode as u16);
        let (second, high) = first.read(add8(self.next_opcode as int, 1) as u16);
        second.indexed(low, high, self.regs.y)
    }

    /// The effective address of the operand in mode `m`, left on the
    /// address line, with the bus accesses that finding it takes.
    pub open spec fn address(self, m: AddressingMode) -> CpuState {
        match m {
            AddressingMode::ZeroPage => CpuState { address_line: self.next_opcode as u16, ..self },
            AddressingMode::ZeroPageX => self.zero_page_indexed(self.regs.x),
            AddressingMode::ZeroPageY => self.zero_page_indexed(self.regs.y),
            AddressingMode::Relative => CpuState {
                address_line: relative_target(self.pc, self.next_opcode),
                ..self
            },
            AddressingMode::Absolute => self.absolute(),
            AddressingMode::AbsoluteX => self.absolute_indexed(self.regs.x),
            AddressingMode::AbsoluteY => self.absolute_indexed(self.regs.y),
            AddressingMode::Indirect => self.indirect(),
            AddressingMode::IndirectX => self.indirect_x(),
            AddressingMode::IndirectY => self.indirect_y(),
            _ => self,
        }
    }

    /// The data operand in mode `m`: the byte after the opcode, the
    /// accumulator, or the byte read at the effective address.
    pub open spec fn operand(self, m: AddressingMode) -> (CpuState, u8) {
        match m {
            AddressingMode::Immediate => (self, self.next_opcode),
            AddressingMode::Accumulator => (self, self.regs.a),
            _ => {
                let after = self.address(m);
                after.read(after.address_line)
            },
        }
    }

    /// Writes a result back where `operand` found it.
    pub open spec fn put(self, m: AddressingMode, value: u8) -> CpuState {
        if m is Accumulator {
            CpuState { regs: RegState { a: value, ..self.regs }, ..self }
        } else {
            self.write(self.address_line, value)
        }
    }

    /// The processor at power-on with the program image `prg` loaded: all
    /// registers zero, and the program counter read from the reset vector.
    pub open spec fn power_on(prg: Seq<u8>) -> CpuState {
        let bus = BusState {
            ram: Seq::new(RAM_SIZE as nat, |i: int| 0u8),
            rom: if prg.len() > 0 { rom_image(prg) } else { Seq::new(ROM_SIZE as nat, |i: int| 0u8) },
            ppu: PpuState::power_on(DEFAULT_PPU_TICKS, DEFAULT_CPU_TICKS),
            cycles: 0,
        };
        CpuState {
            regs: RegState { a: 0, x: 0, y: 0, s: 0, p: 0 },
            pc: le16(
                bus.rom[RESET_VECTOR as int - ROM_START as int],
                bus.rom[RESET_VECTOR as int + 1 - ROM_START as int],
            ),
            bus,
            address_line: 0,
            opcode: 0,
            next_opcode: 0,
            running: false,
        }
    }

    /// The accumulator operations: add, subtract, and, or, exclusive or.
    pub open spec fn accumulate(self, i: Instruction, m: AddressingMode) -> CpuState {
        let (after, v) = self.operand(m);
        let a = self.regs.a;
        let c = has_flag(self.regs.p, FLAG_C);
        if i is ADC || i is SBC {
            let (value, carry, overflow) = if i is ADC { adc_spec(a, v, c) } else { adc_spec(a, !v, c) };
            CpuState { regs: RegState { a: value, ..after.regs }, ..after }.set_zncv(value, carry, overflow)
        } else {
            let value = if i is AND { a & v } else if i is ORA { a | v } else { a ^ v };
            CpuState { regs: RegState { a: value, ..after.regs }, ..after }.set_zn(value)
        }
    }

    /// A comparison of `register` with the operand: zero, negative and
    /// carry from `register - operand`; no register changes.
    pub open spec fn compare(self, register: u8, m: AddressingMode) -> CpuState {
        let (after, v) = self.operand(m);
        after.set_znc(add8(register - v, 256), register >= v)
    }

    /// Shifts and rotations, on the accumulator or in memory.
    pub open spec fn shift(self, i: Instruction, m: AddressingMode) -> CpuState {
        let (after, v) = self.operand(m);
        let c = carry_value(has_flag(self.regs.p, FLAG_C));
        let (value, carry) = if i is ASL {
            (add8(2 * v, 0), v >= 128)
        } else if i is ROL {
            (add8(2 * v, c), v >= 128)
        } else if i is LSR {
            ((v / 2) as u8, v % 2 == 1)
        } else {
            ((v / 2 + 128 * c) as u8, v % 2 == 1)
        };
        after.set_znc(value, carry).put(m, value)
    }

    /// Increment or decrement in memory by `delta`, 1 or 255.
    pub open spec fn step_memory(self, m: AddressingMode, delta: int) -> CpuState {
        let (after, v) = self.operand(m);
        let value = add8(v as int, delta);
        after.set_zn(value).put(m, value)
    }

    /// BIT: zero and negative from `A & operand`; overflow and carry copied
    /// from bits 6 and 7 of the operand.
    pub open spec fn bit_test(self, m: AddressingMode) -> CpuState {
        let (after, v) = self.operand(m);
        let p = with_flag(with_flag(after.regs.p, FLAG_V, v & 0x40 != 0), FLAG_C, v & 0x80 != 0);
        after.with_p(p).set_zn(self.regs.a & v)
    }

    /// A load: the operand, and zero and negative from it.
    pub open spec fn load(self, m: AddressingMode) -> (CpuState, u8) {
        let (after, v) = self.operand(m);
        (after.set_zn(v), v)
    }

    /// A store of `value` at the effective address.
    pub open spec fn store(self, m: AddressingMode, value: u8) -> CpuState {
        let after = self.address(m);
        after.write(after.address_line, value)
    }

    /// A branch: when `taken`, the program counter moves by the offset.
    pub open spec fn branch(self, taken: bool) -> CpuState {
        if taken {
            CpuState { pc: relative_target(self.pc, self.next_opcode), address_line: relative_target(self.pc, self.next_opcode), ..self }
        } else {
            self
        }
    }

    /// The 16-bit vector at `address`, low byte first.
    pub open spec fn vector(self, address: u16) -> (CpuState, u16) {
        let (first, low) = self.read(address);
        let (second, high) = first.read(add16(address as int, 1));
        (second, le16(low, high))
    }

    /// A register copy; no flags change.
    pub open spec fn transfer(self, i: Instruction) -> CpuState {
        let r = self.regs;
        match i {
            Instruction::TAX => self.with_regs(RegState { x: r.a, ..r }),
            Instruction::TAY => self.with_regs(RegState { y: r.a, ..r }),
            Instruction::TSX => self.with_regs(RegState { x: r.s, ..r }),
            Instruction::TXA => self.with_regs(RegState { a: r.x, ..r }),
            Instruction::TYA => self.with_regs(RegState { a: r.y, ..r }),
            _ => self.with_regs(RegState { s: r.x, ..r }),
        }
    }

    /// Increments and decrements of the index registers.
    pub open spec fn count(self, i: Instruction) -> CpuState {
        let r = self.regs;
        match i {
            Instruction::INX => self.with_regs(RegState { x: add8(r.x as int, 1), ..r }).set_zn(add8(r.x as int, 1)),
            Instruction::DEX => self.with_regs(RegState { x: add8(r.x as int, 255), ..r }).set_zn(add8(r.x as int, 255)),
            Instruction::INY => self.with_regs(RegState { y: add8(r.y as int, 1), ..r }).set_zn(add8(r.y as int, 1)),
            _ => self.with_regs(RegState { y: add8(r.y as int, 255), ..r }).set_zn(add8(r.y as int, 255)),
        }
    }

    /// The stack instructions and the returns.
    pub open spec fn stack(self, i: Instruction) -> CpuState {
        match i {
            Instruction::PHA => self.push(self.regs.a),
            Instruction::PHP => self.push(self.regs.p),
            Instruction::PLA => {
                let (after, v) = self.pull();
                CpuState { regs: RegState { a: v, ..after.regs }, ..after }
            },
            Instruction::PLP => {
                let (after, v) = self.pull();
                after.with_p(v & DEFINED_FLAGS)
            },
            Instruction::RTI => {
                let (after, v) = self.pull();
                let (back, pc) = after.with_p(v & DEFINED_FLAGS).pull16();
                CpuState { pc, ..back }
            },
            Instruction::RTS => {
                let (back, pc) = self.pull16();
                CpuState { pc: add16(pc as int, 1), ..back }
            },
            Instruction::JSR => {
                let target = self.address(AddressingMode::Absolute);
                let pushed = target.push16(add16(target.pc as int, 0xffff));
                CpuState { pc: target.address_line, ..pushed }
            },
            _ => {
                let pushed = self.push16(self.pc).push(with_flag(self.regs.p, FLAG_B, true));
                let (after, pc) = pushed.vector(BREAK_VECTOR);
                CpuState { pc, ..after.with_p(with_flag(after.regs.p, FLAG_B, true)) }
            },
        }
    }

    /// What instruction `i` in mode `m` does, for a pair that `supports`
    /// admits.
    pub open spec fn run_instruction(self, i: Instruction, m: AddressingMode) -> CpuState {
        let p = self.regs.p;
        match i {
            Instruction::ADC | Instruction::SBC | Instruction::AND | Instruction::ORA
            | Instruction::EOR => self.accumulate(i, m),
            Instruction::CMP => self.compare(self.regs.a, m),
            Instruction::CPX => self.compare(self.regs.x, m),
            Instruction::CPY => self.compare(self.regs.y, m),
            Instruction::ASL | Instruction::LSR | Instruction::ROL | Instruction::ROR => self.shift(i, m),
            Instruction::INC => self.step_memory(m, 1),
            Instruction::DEC => self.step_memory(m, 255),
            Instruction::BIT => self.bit_test(m),
            Instruction::LDA => {
                let (after, v) = self.load(m);
                CpuState { regs: RegState { a: v, ..after.regs }, ..after }
            },
            Instruction::LDX => {
                let (after, v) = self.load(m);
                CpuState { regs: RegState { x: v, ..after.regs }, ..after }
            },
            Instruction::LDY => {
                let (after, v) = self.load(m);
                CpuState { regs: RegState { y: v, ..after.regs }, ..after }
            },
            Instruction::STA => self.store(m, self.regs.a),
            Instruction::STX => self.store(m, self.regs.x),
            Instruction::STY => self.store(m, self.regs.y),
            Instruction::BCC => self.branch(!has_flag(p, FLAG_C)),
            Instruction::BCS => self.branch(has_flag(p, FLAG_C)),
            Instruction::BEQ => self.branch(has_flag(p, FLAG_Z)),
            Instruction::BNE => self.branch(!has_flag(p, FLAG_Z)),
            Instruction::BMI => self.branch(has_flag(p, FLAG_N)),
            Instruction::BPL => self.branch(!has_flag(p, FLAG_N)),
            Instruction::BVS => self.branch(has_flag(p, FLAG_V)),
            Instruction::BVC => self.branch(!has_flag(p, FLAG_V)),
            Instruction::CLR(f) => self.with_p(with_flag(p, f, false)),
            Instruction::SET(f) => self.with_p(with_flag(p, f, true)),
            Instruction::JMP => {
                let after = self.address(m);
                CpuState { pc: after.address_line, ..after }
            },
            Instruction::TAX | Instruction::TAY | Instruction::TSX | Instruction::TXA
            | Instruction::TYA | Instruction::TXS => self.transfer(i),
            Instruction::INX | Instruction::INY | Instruction::DEX | Instruction::DEY => self.count(i),
            Instruction::NOP => self,
            _ => self.stack(i),
        }
    }

    /// Executes `i` in `m`; a pair that `supports` refuses is a fault and
    /// changes nothing.
    pub open spec fn execute(self, i: Instruction, m: AddressingMode) -> (CpuState, Result<(), CpuFault>) {
        if supports(i, m) {
            (self.run_instruction(i, m), Ok(()))
        } else {
            (self, Err(CpuFault::UnsupportedMode { instruction: i, mode: m }))
        }
    }

    /// One instruction: the opcode and the byte after it are read, the
    /// opcode decoded, the program counter moved back when the instruction
    /// takes no operand byte (a break keeps its padding byte), and the
    /// instruction executed. A fault stops the processor.
    #[verifier::opaque]
    pub open spec fn step(self) -> (CpuState, Result<(), CpuFault>) {
        let (first, opcode) = self.fetch();
        let (second, operand) = CpuState { opcode, ..first }.fetch();
        let fetched = CpuState { next_opcode: operand, ..second };
        match decode_spec(opcode) {
            None => (
                CpuState { running: false, ..fetched },
                Err(CpuFault::IllegalOpcode { opcode, address: self.pc }),
            ),
            Some((i, m)) => {
                let ready = if operand_len(m) == 0 && !(i is BRK) {
                    CpuState { pc: add16(fetched.pc as int, 0xffff), ..fetched }
                } else {
                    fetched
                };
                let (after, result) = ready.execute(i, m);
                if result is Ok {
                    (after, result)
                } else {
                    (CpuState { running: false, ..after }, result)
                }
            },
        }
    }

    /// Up to `n` steps while running: the state after and the number of
    /// steps taken, or the fault that stopped it.
    pub open spec fn run(self, n: nat) -> (CpuState, Result<nat, CpuFault>)
        decreases n,
    {
        if n == 0 || !self.running {
            (self, Ok(0))
        } else {
            let (after, result) = self.step();
            match result {
                Err(e) => (after, Err(e)),
                Ok(_) => {
                    let (last, rest) = after.run((n - 1) as nat);
                    match rest {
                        Ok(k) => (last, Ok(k + 1)),
                        Err(e) => (last, Err(e)),
                    }
                },
            }
        }
    }
}

/// Flags pulled with PLP and pushed back with PHP come back as they were
/// written, but for the bit that names no flag, which always comes back
/// clear.
pub proof fn lemma_flags_round_trip(s: CpuState, written: u8)
    requires
        s.wf(),
        s.bus.ram[add8(s.regs.s as int, 1) as int] == written,
    ensures
        ({
            let slot = add8(s.regs.s as int, 1);
            let pulled = s.run_instruction(Instruction::PLP, AddressingMode::Implied);
            let pushed = pulled.run_instruction(Instruction::PHP, AddressingMode::Implied);
            &&& pulled.regs.p == written & DEFINED_FLAGS
            &&& pushed.bus.ram[slot as int] == written & DEFINED_FLAGS
            &&& pushed.regs.s == s.regs.s
        }),
{
    let slot = add8(s.regs.s as int, 1);
    let moved = CpuState { regs: RegState { s: slot, ..s.regs }, ..s };
    lemma_ram_read(moved.bus, slot as u16);
    lemma_tick_keeps(moved.bus);
    let pulled = s.run_instruction(Instruction::PLP, AddressingMode::Implied);
    assert(pulled.regs.p == written & DEFINED_FLAGS);
    lemma_truncate_clears_unused(written);
    lemma_ram_write(pulled.bus, slot as u16, pulled.regs.p);
    let updated = BusState { ram: pulled.bus.ram.update(slot as int, pulled.regs.p), ..pulled.bus };
    lemma_tick_keeps(updated);
}

/// Every instruction and mode that decoding yields can run together, so a
/// step faults only on an opcode that names no instruction.
pub proof fn lemma_decoded_pairs_run(opcode: u8)
    ensures
        decode_spec(opcode) matches Some((i, m)) ==> supports(i, m),
{
}

/// A step fails only on an opcode that names no instruction.
pub proof fn lemma_step_faults_only_on_illegal_opcode(s: CpuState)
    ensures
        s.step().1 matches Err(e) ==> e is IllegalOpcode,
{
    reveal(CpuState::step);
    let opcode = s.fetch().1;
    lemma_decoded_pairs_run(opcode);
}

/// Zero page indexed addressing wraps within the zero page: the address is
/// the operand plus the index mod 256, never past 0xFF.
pub proof fn lemma_zero_page_indexed_wraps(s: CpuState)
    ensures
        s.address(AddressingMode::ZeroPageX).address_line == (s.next_opcode + s.regs.x) % 256,
        s.address(AddressingMode::ZeroPageY).address_line == (s.next_opcode + s.regs.y) % 256,
        s.address(AddressingMode::ZeroPageX).address_line < 256,
        s.address(AddressingMode::ZeroPageY).address_line < 256,
{
}

/// Absolute X addressing: after the high byte is fetched, when adding X to
/// the low byte carries, the address with the high byte not yet corrected
/// (one page below the effective one) is read and its value dropped. The
/// effective address is the operand plus X, and the registers are left as
/// they were.
pub proof fn lemma_absolute_x_page_cross(s: CpuState)
    ensures
        ({
            let (fetched, high) = s.fetch();
            let low = s.next_opcode;
            let x = s.regs.x;
            let effective = add16(le16(low, high) as int, x as int);
            let after = s.address(AddressingMode::AbsoluteX);
            &&& after.address_line == effective
            &&& after.regs == s.regs
            &&& low + x >= 256 ==> {
                &&& le16(add8(low as int, x as int), high) == le16(low, high) + x - 256
                &&& after == (CpuState {
                    address_line: effective,
                    ..fetched.read(le16(add8(low as int, x as int), high)).0
                })
            }
            &&& low + x < 256 ==> after == (CpuState { address_line: effective, ..fetched })
        }),
{
}

proof fn lemma_le16(low: u8, high: u8)
    ensures
        ((high as u16) << 8u16) | (low as u16) == high * 256 + low,
{
    assert(((high as u16) << 8u16) | (low as u16) == (high as u16) * 256 + (low as u16))
        by (bit_vector);
}

/// Assembles a little-endian address.
pub fn le_address_16(low: u8, high: u8) -> (r: u16)
    ensures
        r == le16(low, high),
        r == high * 256 + low,
{
    proof {
        lemma_le16(low, high);
    }
    ((high as u16) << 8u16) | (low as u16)
}

proof fn lemma_index_carry(low: u8, high: u8, index: u8)
    ensures
        le16(
            add8(low as int, index as int),
            add8(high as int, (low + index) / 256),
        ) == add16(le16(low, high) as int, index as int),
{
    let l = low as int;
    let h = high as int;
    let i = index as int;
    if l + i >= 256 {
        if h == 255 {
            assert(h * 256 + l + i - 65536 == (l + i - 256) as int);
        }
    }
}

proof fn lemma_relative(pc: u16, offset: u8)
    ensures
        ({
            let low = add8(offset as int, pc as int % 256);
            let carry = offset + pc as int % 256 >= 256;
            let extension: int = if offset >= 128 { 255 } else { 0 };
            let high = add8(extension + pc as int / 256, carry_value(carry));
            le16(low, high) == relative_target(pc, offset)
        }),
{
    let p = pc as int;
    assert(p == (p / 256) * 256 + p % 256);
}

/// The processor. It owns the bus, and through it the memory and the
/// picture unit.
pub struct CPU {
    pub registers: Registers,
    pub pc: u16,
    pub memory: MemoryBus,
    pub is_running: bool,
    /// The effective address of the current instruction's operand.
    pub address_line: u16,
    pub opcode: u8,
    /// The byte after the opcode, read with it.
    pub next_opcode: u8,
}

impl View for CPU {
    type V = CpuState;

    open spec fn view(&self) -> CpuState {
        CpuState {
            regs: self.registers@,
            pc: self.pc,
            bus: self.memory@,
            address_line: self.address_line,
            opcode: self.opcode,
            next_opcode: self.next_opcode,
            running: self.is_running,
        }
    }
}

impl CPU {
    pub open spec fn wf(&self) -> bool {
        &&& self.memory.wf()
        &&& self.registers.wf()
    }

    /// Power-on: the program image goes into the ROM window, and the
    /// program counter is read from the reset vector.
    pub fn init(cartridge: Cartridge) -> (r: Self)
        ensures
            r.wf(),
            r@ == CpuState::power_on(cartridge.prg_rom_data@),
    {
        let mut memory = MemoryBus::init();
        memory.load_cartridge(&cartridge);
        assert(memory@.rom =~= (if cartridge.prg_rom_data@.len() > 0 {
            rom_image(cartridge.prg_rom_data@)
        } else {
            Seq::new(ROM_SIZE as nat, |i: int| 0u8)
        }));
        let low = memory.read_byte(RESET_VECTOR);
        let high = memory.read_byte(RESET_VECTOR + 1);
        let pc = le_address_16(low, high);
        let cpu = Self {
            registers: Registers::init(),
            pc,
            memory,
            is_running: false,
            address_line: 0,
            opcode: 0,
            next_opcode: 0,
        };
        assert(cpu@.bus =~= CpuState::power_on(cartridge.prg_rom_data@).bus);
        cpu
    }

    /// Marks the processor running and runs up to `max_steps` instructions,
    /// or fewer when it stops: the number run, or the fault that stopped it.
    pub fn run(&mut self, max_steps: u64) -> (r: Result<u64, CpuFault>)
        requires
            old(self).wf(),
        ensures
            final(self).wf(),
            final(self)@ == (CpuState { running: true, ..old(self)@ }).run(max_steps as nat).0,
            match (r, (CpuState { running: true, ..old(self)@ }).run(max_steps as nat).1) {
                (Ok(k), Ok(n)) => k == n,
                (Err(e), Err(f)) => e == f,
                _ => false,
            },
    {
        self.is_running = true;
        let mut done: u64 = 0;
        let ghost start = self@;
        while done < max_steps && self.is_running
            invariant
                self.wf(),
                done <= max_steps,
                start == (CpuState { running: true, ..old(self)@ }),
                ({
                    let (last, rest) = self@.run((max_steps - done) as nat);
                    &&& start.run(max_steps as nat).0 == last
                    &&& match (start.run(max_steps as nat).1, rest) {
                        (Ok(n), Ok(k)) => n == k + done,
                        (Err(e), Err(f)) => e == f,
                        _ => false,
                    }
                }),
            decreases max_steps - done,
        {
            let ghost before = self@;
            match self.step() {
                Ok(()) => {
                    done = done + 1;
                },
                Err(e) => {
                    assert(before.run((max_steps - done) as nat) == (self@, Err::<nat, CpuFault>(e)));
                    return Err(e);
                },
            }
        }
        Ok(done)
    }

    /// Fetches, decodes and executes one instruction. An opcode that names
    /// no instruction stops the processor with a fault.
    pub fn step(&mut self) -> (r: Result<(), CpuFault>)
        requires
            old(self).wf(),
        ensures
            final(self).wf(),
            (final(self)@, r) == old(self)@.step(),
    {
        proof {
            reveal(CpuState::step);
        }
        let address = self.pc;
        self.opcode = self.next();
        self.next_opcode = self.next();
        match decode_instruction(self.opcode) {
            None => {
                self.is_running = false;
                Err(CpuFault::IllegalOpcode { opcode: self.opcode, address })
            },
            Some((instruction, mode)) => {
                let one_byte = match mode {
                    AddressingMode::Accumulator | AddressingMode::Implied => true,
                    _ => false,
                };
                let is_break = match instruction {
                    Instruction::BRK => true,
                    _ => false,
                };
                if one_byte && !is_break {
                    self.prev();
                }
                let result = self.execute(instruction, mode);
                if result.is_err() {
                    self.is_running = false;
                }
                result
            },
        }
    }

    /// Executes `instruction` in `mode` at the current state; a pair that
    /// cannot run together is a fault and changes nothing.
    pub fn execute(&mut self, instruction: Instruction, mode: AddressingMode) -> (r: Result<(), CpuFault>)
        requires
            old(self).wf(),
        ensures
            final(self).wf(),
            (final(self)@, r) == old(self)@.execute(instruction, mode),
    {
        if supported(instruction, mode) {
            self.run_instruction(instruction, mode);
            Ok(())
        } else {
            Err(CpuFault::UnsupportedMode { instruction, mode })
        }
    }

    /// Reads `address` without a tick, for inspection. A status register
    /// read has its side effects here too.
    pub fn peek(&mut self, address: u16) -> (r: u8)
        requires
            old(self).wf(),
        ensures
            final(self).wf(),
            (final(self)@.bus, r) == old(self)@.bus.peek(address),
            final(self)@ == (CpuState { bus: final(self)@.bus, ..old(self)@ }),
    {
        self.memory.read_byte(address)
    }

    /// Writes `address` without a tick.
    pub fn poke(&mut self, address: u16, value: u8)
        requires
            old(self).wf(),
        ensures
            final(self).wf(),
            final(self)@ == (CpuState { bus: old(self)@.bus.poke(address, value), ..old(self)@ }),
    {
        self.memory.write_byte(address, value)
    }

    /// Moves the program counter back over a byte that was read but is not
    /// part of the instruction.
    fn prev(&mut self)
        ensures
            final(self)@ == (CpuState { pc: add16(old(self).pc as int, 0xffff), ..old(self)@ }),
    {
        self.pc = self.pc.wrapping_sub(1);
    }

    /// Reads the byte at the program counter and advances it.
    fn next(&mut self) -> (r: u8)
        requires
            old(self).wf(),
        ensures
            final(self).wf(),
            (final(self)@, r) == old(self)@.fetch(),
    {
        let value = self.memory.read(self.pc);
        self.pc = self.pc.wrapping_add(1);
        value
    }

    #[allow(non_snake_case)]
    fn update_flags_ZN(&mut self, value: u8)
        requires
            old(self).wf(),
        ensures
            final(self).wf(),
            final(self)@ == old(self)@.set_zn(value),
    {
        self.registers.p.set(FLAG_Z, value == 0);
        self.registers.p.set(FLAG_N, value & 0x80 == 0x80);
        proof {
            assert((value & 0x80 == 0x80) == (value >= 128)) by (bit_vector);
        }
    }

    #[allow(non_snake_case)]
    fn update_flags_ZNC(&mut self, value: u8, carry: bool)
        requires
            old(self).wf(),
        ensures
            final(self).wf(),
            final(self)@ == old(self)@.set_znc(value, carry),
    {
        self.update_flags_ZN(value);
        self.registers.p.set(FLAG_C, carry);
    }

    #[allow(non_snake_case)]
    fn update_flags_ZNCV(&mut self, value: u8, carry: bool, overflow: bool)
        requires
            old(self).wf(),
        ensures
            final(self).wf(),
            final(self)@ == old(self)@.set_zncv(value, carry, overflow),
    {
        self.update_flags_ZNC(value, carry);
        self.registers.p.set(FLAG_V, overflow);
    }

    fn push(&mut self, value: u8)
        requires
            old(self).wf(),
        ensures
            final(self).wf(),
            final(self)@ == old(self)@.push(value),
    {
        self.memory.write(self.registers.s as u16, value);
        self.registers.s = alu::dec(self.registers.s);
    }

    fn push16(&mut self, value: u16)
        requires
            old(self).wf(),
        ensures
            final(self).wf(),
            final(self)@ == old(self)@.push16(value),
    {
        self.push((value >> 8u16) as u8);
        self.push((value & 0xff) as u8);
        proof {
            assert(value >> 8u16 == value / 256) by (bit_vector);
            assert(value & 0xff == value % 256) by (bit_vector);
        }
    }

    fn pull(&mut self) -> (r: u8)
        requires
            old(self).wf(),
        ensures
            final(self).wf(),
            (final(self)@, r) == old(self)@.pull(),
    {
        self.registers.s = alu::inc(self.registers.s);
        self.memory.read(self.registers.s as u16)
    }

    fn pull16(&mut self) -> (r: u16)
        requires
            old(self).wf(),
        ensures
            final(self).wf(),
            (final(self)@, r) == old(self)@.pull16(),
    {
        let low = self.pull();
        let high = self.pull();
        le_address_16(low, high)
    }

    /// The indexed part of the absolute and post-indexed modes.
    fn index_address(&mut self, low: u8, high: u8, index: u8)
        requires
            old(self).wf(),
        ensures
            final(self).wf(),
            final(self)@ == old(self)@.indexed(low, high, index),
    {
        let (new_low, carry, _) = alu::adc(low, index, false);
        if carry {
            let first_location = le_address_16(new_low, high);
            self.memory.read(first_location);
        }
        let (new_high, _, _) = alu::adc(high, 0, carry);
        proof {
            lemma_index_carry(low, high, index);
        }
        self.address_line = le_address_16(new_low, new_high);
    }

    fn zero_page_indexed(&mut self, index: u8)
        requires
            old(self).wf(),
        ensures
            final(self).wf(),
            final(self)@ == old(self)@.zero_page_indexed(index),
    {
        let op = self.next_opcode;
        self.memory.read(op as u16);
        self.address_line = op.wrapping_add(index) as u16;
    }

    fn relative_address(&mut self)
        requires
            old(self).wf(),
        ensures
            final(self).wf(),
            final(self)@ == (CpuState {
                address_line: relative_target(old(self).pc, old(self).next_opcode),
                ..old(self)@
            }),
    {
        let op = self.next_opcode;
        let pc = self.pc;
        let (low, carry, _) = alu::adc(op, (pc & 0xff) as u8, false);
        let extension: u8 = if op & 0x80 == 0x80 { 0xff } else { 0x00 };
        let (high, _, _) = alu::adc(extension, (pc >> 8u16) as u8, carry);
        proof {
            assert(pc & 0xff == pc % 256) by (bit_vector);
            assert(pc >> 8u16 == pc / 256) by (bit_vector);
            assert((op & 0x80 == 0x80) == (op >= 128)) by (bit_vector);
            lemma_relative(pc, op);
        }
        self.address_line = le_address_16(low, high);
    }

    fn absolute_address(&mut self)
        requires
            old(self).wf(),
        ensures
            final(self).wf(),
            final(self)@ == old(self)@.absolute(),
    {
        let low = self.next_opcode;
        let high = self.next();
        self.address_line = le_address_16(low, high);
    }

    fn absolute_indexed(&mut self, index: u8)
        requires
            old(self).wf(),
        ensures
            final(self).wf(),
            final(self)@ == old(self)@.absolute_indexed(index),
    {
        let low = self.next_opcode;
        let high = self.next();
        self.index_address(low, high, index);
    }

    fn indirect_address(&mut self)
        requires
            old(self).wf(),
        ensures
            final(self).wf(),
            final(self)@ == old(self)@.indirect(),
    {
        let low = self.next_opcode;
        let high = self.next();
        let pointer = le_address_16(low, high);
        let low = self.memory.read(pointer);
        let high = self.memory.read(pointer.wrapping_add(1));
        self.address_line = le_address_16(low, high);
    }

    fn indirect_x_address(&mut self)
        requires
            old(self).wf(),
        ensures
            final(self).wf(),
            final(self)@ == old(self)@.indirect_x(),
    {
        let op = self.next_opcode;
        self.memory.read(op as u16);
        let pointer = op.wrapping_add(self.registers.x);
        let low = self.memory.read(pointer as u16);
        let high = self.memory.read(pointer.wrapping_add(1) as u16);
        self.address_line = le_address_16(low, high);
    }

    fn indirect_y_address(&mut self)
        requires
            old(self).wf(),
        ensures
            final(self).wf(),
            final(self)@ == old(self)@.indirect_y(),
    {
        let op = self.next_opcode;
        let low = self.memory.read(op as u16);
        let high = self.memory.read(op.wrapping_add(1) as u16);
        let y = self.registers.y;
        self.index_address(low, high, y);
    }

    /// Computes the effective address of mode `m` onto the address line,
    /// with the bus accesses that finding it takes.
    pub fn calculate_address(&mut self, m: AddressingMode)
        requires
            old(self).wf(),
            has_address(m),
        ensures
            final(self).wf(),
            final(self)@ == old(self)@.address(m),
    {
        match m {
            AddressingMode::ZeroPage => self.address_line = self.next_opcode as u16,
            AddressingMode::ZeroPageX => {
                let x = self.registers.x;
                self.zero_page_indexed(x);
            },
            AddressingMode::ZeroPageY => {
                let y = self.registers.y;
                self.zero_page_indexed(y);
            },
            AddressingMode::Relative => self.relative_address(),
            AddressingMode::Absolute => self.absolute_address(),
            AddressingMode::AbsoluteX => {
                let x = self.registers.x;
                self.absolute_indexed(x);
            },
            AddressingMode::AbsoluteY => {
                let y = self.registers.y;
                self.absolute_indexed(y);
            },
            AddressingMode::Indirect => self.indirect_address(),
            AddressingMode::IndirectX => self.indirect_x_address(),
            AddressingMode::IndirectY => self.indirect_y_address(),
            _ => {},
        }
    }

    /// Fetches the data operand of mode `m`.
    fn load_input(&mut self, m: AddressingMode) -> (r: u8)
        requires
            old(self).wf(),
            has_operand(m),
        ensures
            final(self).wf(),
            (final(self)@, r) == old(self)@.operand(m),
    {
        match m {
            AddressingMode::Immediate => self.next_opcode,
            AddressingMode::Accumulator => self.registers.a,
            _ => {
                self.calculate_address(m);
                self.memory.read(self.address_line)
            },
        }
    }

    /// Writes a result back where `load_input` found it.
    fn put(&mut self, m: AddressingMode, value: u8)
        requires
            old(self).wf(),
        ensures
            final(self).wf(),
            final(self)@ == old(self)@.put(m, value),
    {
        match m {
            AddressingMode::Accumulator => self.registers.a = value,
            _ => self.memory.write(self.address_line, value),
        }
    }

    fn accumulate(&mut self, i: Instruction, m: AddressingMode)
        requires
            old(self).wf(),
            has_operand(m),
            i is ADC || i is SBC || i is AND || i is ORA || i is EOR,
        ensures
            final(self).wf(),
            final(self)@ == old(self)@.accumulate(i, m),
    {
        let a = self.registers.a;
        let carry_in = self.registers.p.contains(FLAG_C);
        let v = self.load_input(m);
        match i {
            Instruction::ADC | Instruction::SBC => {
                let (value, carry, overflow) = if let Instruction::ADC = i {
                    alu::adc(a, v, carry_in)
                } else {
                    alu::sbc(a, v, carry_in)
                };
                self.registers.a = value;
                self.update_flags_ZNCV(value, carry, overflow);
            },
            _ => {
                let value = match i {
                    Instruction::AND => alu::and(a, v),
                    Instruction::ORA => alu::or(a, v),
                    _ => alu::eor(a, v),
                };
                self.registers.a = value;
                self.update_flags_ZN(value);
            },
        }
    }

    fn compare(&mut self, register: u8, m: AddressingMode)
        requires
            old(self).wf(),
            has_operand(m),
        ensures
            final(self).wf(),
            final(self)@ == old(self)@.compare(register, m),
    {
        let v = self.load_input(m);
        let (value, carry) = alu::cmp(register, v);
        self.update_flags_ZNC(value, carry);
    }

    fn shift(&mut self, i: Instruction, m: AddressingMode)
        requires
            old(self).wf(),
            writable(m),
            i is ASL || i is LSR || i is ROL || i is ROR,
        ensures
            final(self).wf(),
            final(self)@ == old(self)@.shift(i, m),
    {
        let carry_in = self.registers.p.contains(FLAG_C);
        let v = self.load_input(m);
        let (value, carry) = match i {
            Instruction::ASL => alu::asl(v),
            Instruction::ROL => alu::rol(v, carry_in),
            Instruction::LSR => alu::lsr(v),
            _ => alu::ror(v, carry_in),
        };
        self.update_flags_ZNC(value, carry);
        self.put(m, value);
    }

    fn step_memory(&mut self, m: AddressingMode, increment: bool)
        requires
            old(self).wf(),
            writable(m),
        ensures
            final(self).wf(),
            final(self)@ == old(self)@.step_memory(m, if increment { 1 } else { 255 }),
    {
        let v = self.load_input(m);
        let value = if increment { alu::inc(v) } else { alu::dec(v) };
        self.update_flags_ZN(value);
        self.put(m, value);
    }

    fn bit_test(&mut self, m: AddressingMode)
        requires
            old(self).wf(),
            has_operand(m),
        ensures
            final(self).wf(),
            final(self)@ == old(self)@.bit_test(m),
    {
        let a = self.registers.a;
        let input = self.load_input(m);
        let value = alu::and(a, input);
        self.registers.p.set(FLAG_V, input & 0x40 != 0);
        self.registers.p.set(FLAG_C, input & 0x80 != 0);
        self.update_flags_ZN(value);
    }

    fn load(&mut self, m: AddressingMode) -> (r: u8)
        requires
            old(self).wf(),
            has_operand(m),
        ensures
            final(self).wf(),
            (final(self)@, r) == old(self)@.load(m),
    {
        let value = self.load_input(m);
        self.update_flags_ZN(value);
        value
    }

    fn store(&mut self, m: AddressingMode, value: u8)
        requires
            old(self).wf(),
            has_address(m),
        ensures
            final(self).wf(),
            final(self)@ == old(self)@.store(m, value),
    {
        self.calculate_address(m);
        self.memory.write(self.address_line, value);
    }

    fn branch(&mut self, taken: bool)
        requires
            old(self).wf(),
        ensures
            final(self).wf(),
            final(self)@ == old(self)@.branch(taken),
    {
        if taken {
            self.relative_address();
            self.pc = self.address_line;
        }
    }

    fn read_vector(&mut self, address: u16) -> (r: u16)
        requires
            old(self).wf(),
        ensures
            final(self).wf(),
            (final(self)@, r) == old(self)@.vector(address),
    {
        let low = self.memory.read(address);
        let high = self.memory.read(address.wrapping_add(1));
        le_address_16(low, high)
    }

    fn transfer(&mut self, i: Instruction)
        requires
            old(self).wf(),
        ensures
            final(self).wf(),
            final(self)@ == old(self)@.transfer(i),
    {
        let r = self.registers;
        match i {
            Instruction::TAX => {
                self.registers.x = r.a;
            },
            Instruction::TAY => {
                self.registers.y = r.a;
            },
            Instruction::TSX => {
                self.registers.x = r.s;
            },
            Instruction::TXA => {
                self.registers.a = r.x;
            },
            Instruction::TYA => {
                self.registers.a = r.y;
            },
            _ => self.registers.s = r.x,
        }
    }

    fn count(&mut self, i: Instruction)
        requires
            old(self).wf(),
        ensures
            final(self).wf(),
            final(self)@ == old(self)@.count(i),
    {
        match i {
            Instruction::INX => {
                let value = alu::inc(self.registers.x);
                self.registers.x = value;
                self.update_flags_ZN(value);
            },
            Instruction::DEX => {
                let value = alu::dec(self.registers.x);
                self.registers.x = value;
                self.update_flags_ZN(value);
            },
            Instruction::INY => {
                let value = alu::inc(self.registers.y);
                self.registers.y = value;
                self.update_flags_ZN(value);
            },
            _ => {
                let value = alu::dec(self.registers.y);
                self.registers.y = value;
                self.update_flags_ZN(value);
            },
        }
    }

    fn stack(&mut self, i: Instruction)
        requires
            old(self).wf(),
        ensures
            final(self).wf(),
            final(self)@ == old(self)@.stack(i),
    {
        match i {
            Instruction::PHA => {
                let a = self.registers.a;
                self.push(a);
            },
            Instruction::PHP => {
                let p = self.registers.p.bits();
                self.push(p);
            },
            Instruction::PLA => {
                let value = self.pull();
                self.registers.a = value;
            },
            Instruction::PLP => {
                let value = self.pull();
                self.registers.p = Flags::from_bits_truncate(value);
            },
            Instruction::RTI => {
                let value = self.pull();
                self.registers.p = Flags::from_bits_truncate(value);
                self.pc = self.pull16();
            },
            Instruction::RTS => {
                let pc = self.pull16();
                self.pc = pc.wrapping_add(1);
            },
            Instruction::JSR => self.jsr(),
            _ => self.brk(),
        }
    }

    fn jsr(&mut self)
        requires
            old(self).wf(),
        ensures
            final(self).wf(),
            final(self)@ == old(self)@.stack(Instruction::JSR),
    {
        // The return address pushed is that of the last byte of the
        // instruction; the return adds one.
        self.absolute_address();
        let pc = self.pc.wrapping_sub(1);
        self.push16(pc);
        self.pc = self.address_line;
    }

    fn brk(&mut self)
        requires
            old(self).wf(),
        ensures
            final(self).wf(),
            final(self)@ == old(self)@.stack(Instruction::BRK),
    {
        let pc = self.pc;
        self.push16(pc);
        let mut pushed = self.registers.p;
        pushed.insert(FLAG_B);
        self.push(pushed.bits());
        self.pc = self.read_vector(BREAK_VECTOR);
        self.registers.p.insert(FLAG_B);
    }

    fn run_instruction(&mut self, i: Instruction, m: AddressingMode)
        requires
            old(self).wf(),
            supports(i, m),
        ensures
            final(self).wf(),
            final(self)@ == old(self)@.run_instruction(i, m),
    {
        let p = self.registers.p;
        match i {
            Instruction::ADC | Instruction::SBC | Instruction::AND | Instruction::ORA
            | Instruction::EOR => self.accumulate(i, m),
            Instruction::CMP => self.compare(self.registers.a, m),
            Instruction::CPX => self.compare(self.registers.x, m),
            Instruction::CPY => self.compare(self.registers.y, m),
            Instruction::ASL | Instruction::LSR | Instruction::ROL | Instruction::ROR => self.shift(i, m),
            Instruction::INC => self.step_memory(m, true),
            Instruction::DEC => self.step_memory(m, false),
            Instruction::BIT => self.bit_test(m),
            Instruction::LDA => self.registers.a = self.load(m),
            Instruction::LDX => self.registers.x = self.load(m),
            Instruction::LDY => self.registers.y = self.load(m),
            Instruction::STA => self.store(m, self.registers.a),
            Instruction::STX => self.store(m, self.registers.x),
            Instruction::STY => self.store(m, self.registers.y),
            Instruction::BCC => self.branch(!p.contains(FLAG_C)),
            Instruction::BCS => self.branch(p.contains(FLAG_C)),
            Instruction::BEQ => self.branch(p.contains(FLAG_Z)),
            Instruction::BNE => self.branch(!p.contains(FLAG_Z)),
            Instruction::BMI => self.branch(p.contains(FLAG_N)),
            Instruction::BPL => self.branch(!p.contains(FLAG_N)),
            Instruction::BVS => self.branch(p.contains(FLAG_V)),
            Instruction::BVC => self.branch(!p.contains(FLAG_V)),
            Instruction::CLR(f) => self.registers.p.remove(f),
            Instruction::SET(f) => self.registers.p.insert(f),
            Instruction::JMP => self.jmp(m),
            Instruction::TAX | Instruction::TAY | Instruction::TSX | Instruction::TXA
            | Instruction::TYA | Instruction::TXS => self.transfer(i),
            Instruction::INX | Instruction::INY | Instruction::DEX | Instruction::DEY => self.count(i),
            Instruction::NOP => {},
            _ => self.stack(i),
        }
    }

    fn jmp(&mut self, m: AddressingMode)
        requires
            old(self).wf(),
            m is Absolute || m is Indirect,
        ensures
            final(self).wf(),
            final(self)@ == (CpuState { pc: old(self)@.address(m).address_line, ..old(self)@.address(m) }),
    {
        self.calculate_address(m);
        self.pc = self.address_line;
    }
}

/// Whether instruction `i` can run in mode `m`.
pub fn supported(i: Instruction, m: AddressingMode) -> (r: bool)
    ensures
        r == supports(i, m),
{
    let has_address = match m {
        AddressingMode::Accumulator | AddressingMode::Immediate | AddressingMode::Implied => false,
        _ => true,
    };
    let has_operand = match m {
        AddressingMode::Implied | AddressingMode::Relative => false,
        _ => true,
    };
    let is_accumulator = match m {
        AddressingMode::Accumulator => true,
        _ => false,
    };
    let is_relative = match m {
        AddressingMode::Relative => true,
        _ => false,
    };
    let writable = is_accumulator || (has_address && !is_relative);
    match i {
        Instruction::ADC | Instruction::AND | Instruction::BIT | Instruction::CMP
        | Instruction::CPX | Instruction::CPY | Instruction::EOR | Instruction::LDA
        | Instruction::LDX | Instruction::LDY | Instruction::ORA | Instruction::SBC => has_operand,
        Instruction::ASL | Instruction::LSR | Instruction::ROL | Instruction::ROR => writable,
        Instruction::DEC | Instruction::INC | Instruction::STA | Instruction::STX
        | Instruction::STY => writable && !is_accumulator,
        Instruction::JMP => match m {
            AddressingMode::Absolute | AddressingMode::Indirect => true,
            _ => false,
        },
        Instruction::JSR => match m {
            AddressingMode::Absolute => true,
            _ => false,
        },
        Instruction::BCC | Instruction::BCS | Instruction::BEQ | Instruction::BMI
        | Instruction::BNE | Instruction::BPL | Instruction::BVC | Instruction::BVS => is_relative,
        _ => match m {
            AddressingMode::Implied => true,
            _ => false,
        },
    }
}

} // verus!
