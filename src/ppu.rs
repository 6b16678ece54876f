//! The picture unit: its registers as the bus sees them, its sprite memory,
//! and the scanline and cycle counters that the bus drives.
use vstd::prelude::*;
use crate::buffer::filled;
use crate::ppu_register::{RegisterBank, VBLANK};

verus! {

/// Last cycle of a scanline; the counter runs from 0 to this.
pub const LAST_CYCLE: u16 = 340;
/// Last scanline of a frame; the counter runs from 0 to this.
pub const LAST_SCANLINE: u16 = 311;
/// The scanline at which vertical blank starts.
pub const VBLANK_SCANLINE: u16 = 241;
/// Bytes of object attribute memory.
pub const OAM_SIZE: usize = 256;
/// Bytes of the picture unit's own memory.
pub const VRAM_SIZE: usize = 0x800;
/// Default clock ratio: 16 picture unit ticks every 5 processor ticks.
pub const DEFAULT_PPU_TICKS: u16 = 16;
pub const DEFAULT_CPU_TICKS: u16 = 5;

/// The picture unit's own memory.
pub struct GraphicsMemory {
    pub ram: Vec<u8>,
}

impl GraphicsMemory {
    pub fn init() -> (r: Self)
        ensures
            r.ram@ == Seq::new(VRAM_SIZE as nat, |i: int| 0u8),
    {
        Self { ram: filled(VRAM_SIZE, 0) }
    }
}

/// The picture unit as plain values.
pub ghost struct PpuState {
    pub regs: RegisterBank,
    pub oam: Seq<u8>,
    pub vram: Seq<u8>,
    pub ppu_ticks: u16,
    pub cpu_ticks: u16,
    pub phase: u32,
    pub scanline: u16,
    pub cycle: u16,
}

impl PpuState {
    /// The picture unit at power-on with the given clock ratio.
    pub open spec fn power_on(ppu_ticks: u16, cpu_ticks: u16) -> PpuState {
        PpuState {
            regs: RegisterBank::power_on(),
            oam: Seq::new(OAM_SIZE as nat, |i: int| 0xffu8),
            vram: Seq::new(VRAM_SIZE as nat, |i: int| 0u8),
            ppu_ticks,
            cpu_ticks,
            phase: 0,
            scanline: 0,
            cycle: 0,
        }
    }

    pub open spec fn wf(self) -> bool {
        &&& self.regs.wf()
        &&& self.oam.len() == OAM_SIZE
        &&& self.cpu_ticks > 0
        &&& clock_ratio_in_range(self.ppu_ticks, self.cpu_ticks)
        &&& self.phase < self.cpu_ticks
        &&& self.scanline <= LAST_SCANLINE
        &&& self.cycle <= LAST_CYCLE
    }

    /// One tick: vertical blank starts at the first cycle of its scanline,
    /// then the cycle advances, wrapping into the next scanline and the
    /// last scanline into the first.
    pub open spec fn tick(self) -> PpuState {
        let regs = if self.scanline == VBLANK_SCANLINE && self.cycle == 0 {
            RegisterBank { status: self.regs.status | VBLANK, ..self.regs }
        } else {
            self.regs
        };
        if self.cycle == LAST_CYCLE {
            PpuState {
                regs,
                cycle: 0,
                scanline: if self.scanline == LAST_SCANLINE { 0 } else { (self.scanline + 1) as u16 },
                ..self
            }
        } else {
            PpuState { regs, cycle: (self.cycle + 1) as u16, ..self }
        }
    }

    /// `k` ticks in a row.
    pub open spec fn ticks(self, k: nat) -> PpuState
        decreases k,
    {
        if k == 0 {
            self
        } else {
            self.ticks((k - 1) as nat).tick()
        }
    }

    /// Picture unit ticks in the next processor tick: the whole
    /// denominators in the phase grown by the numerator.
    pub open spec fn ticks_per_step(self) -> int {
        (self.phase + self.ppu_ticks) / (self.cpu_ticks as int)
    }

    /// One processor tick: the fractional phase grows by the ratio's
    /// numerator and each whole denominator in it is one picture unit tick.
    #[verifier::opaque]
    pub open spec fn step(self) -> PpuState {
        PpuState {
            phase: ((self.phase + self.ppu_ticks) % (self.cpu_ticks as int)) as u32,
            ..self.ticks(self.ticks_per_step() as nat)
        }
    }

    /// Picture unit ticks over the next `n` processor ticks.
    pub open spec fn ticks_over_steps(self, n: nat) -> int
        decreases n,
    {
        if n == 0 {
            0
        } else {
            self.ticks_per_step() + self.step().ticks_over_steps((n - 1) as nat)
        }
    }

    /// The state after `n` processor ticks.
    pub open spec fn steps(self, n: nat) -> PpuState
        decreases n,
    {
        if n == 0 {
            self
        } else {
            self.step().steps((n - 1) as nat)
        }
    }

    /// A read of register `address` (0 to 7): the state after and the value.
    pub open spec fn read(self, address: u8) -> (PpuState, u8) {
        if address == 2 {
            let (regs, value) = self.regs.status_read();
            (PpuState { regs, ..self }, value)
        } else if address == 4 {
            (self, self.regs.sprite_data)
        } else if address == 7 {
            (self, self.regs.ppu_data)
        } else {
            (self, 0)
        }
    }

    /// A byte written to sprite memory at the sprite address, which then
    /// advances by one, wrapping.
    pub open spec fn oam_written(self, data: u8) -> PpuState {
        PpuState {
            oam: self.oam.update(self.regs.sprite_address as int, data),
            regs: RegisterBank {
                sprite_address: ((self.regs.sprite_address + 1) % 256) as u8,
                sprite_data: data,
                ..self.regs
            },
            ..self
        }
    }

    /// A write of `value` to register `address` (0 to 7).
    pub open spec fn write(self, address: u8, value: u8) -> PpuState {
        if address == 0 {
            PpuState { regs: RegisterBank { cr1: value & crate::ppu_register::CR1_DEFINED, ..self.regs }, ..self }
        } else if address == 1 {
            PpuState { regs: RegisterBank { cr2: value & crate::ppu_register::CR2_DEFINED, ..self.regs }, ..self }
        } else if address == 3 {
            PpuState { regs: RegisterBank { sprite_address: value, ..self.regs }, ..self }
        } else if address == 4 {
            self.oam_written(value)
        } else if address == 5 {
            PpuState { regs: self.regs.scroll_written(value), ..self }
        } else if address == 6 {
            PpuState { regs: self.regs.address_written(value), ..self }
        } else if address == 7 {
            PpuState { regs: RegisterBank { ppu_data: value, ..self.regs }, ..self }
        } else {
            self
        }
    }
}

/// A ratio of picture unit ticks to processor ticks from 3 to 3.2, so that
/// five processor ticks make 15 or 16 picture unit ticks.
pub open spec fn clock_ratio_in_range(ppu_ticks: u16, cpu_ticks: u16) -> bool {
    15 * cpu_ticks <= 5 * ppu_ticks <= 16 * cpu_ticks
}

pub proof fn lemma_step_keeps(p: PpuState)
    requires
        p.wf(),
    ensures
        p.step().wf(),
        p.step().oam == p.oam,
        p.step().regs.sprite_address == p.regs.sprite_address,
        p.step().ppu_ticks == p.ppu_ticks,
        p.step().cpu_ticks == p.cpu_ticks,
        p.step().phase == (p.phase + p.ppu_ticks) % (p.cpu_ticks as int),
{
    reveal(PpuState::step);
    lemma_ticks_keep(p, p.ticks_per_step() as nat);
}

proof fn lemma_ticks_over_steps(p: PpuState, n: nat)
    requires
        p.wf(),
    ensures
        p.steps(n).wf(),
        p.steps(n).ppu_ticks == p.ppu_ticks,
        p.steps(n).cpu_ticks == p.cpu_ticks,
        p.ticks_over_steps(n) * p.cpu_ticks + p.steps(n).phase == p.phase + n * p.ppu_ticks,
    decreases n,
{
    if n > 0 {
        let q = p.step();
        lemma_step_keeps(p);
        lemma_ticks_over_steps(q, (n - 1) as nat);
        let d = p.cpu_ticks as int;
        let t = p.phase + p.ppu_ticks;
        vstd::arithmetic::div_mod::lemma_fundamental_div_mod(t, d);
        let k = p.ticks_per_step();
        let rest = q.ticks_over_steps((n - 1) as nat);
        assert((k + rest) * d == k * d + rest * d) by (nonlinear_arith);
        assert(n * p.ppu_ticks == p.ppu_ticks + (n - 1) * p.ppu_ticks) by (nonlinear_arith)
            requires n > 0;
    }
}

/// With the clock ratio in range, each processor tick makes 3 or 4 picture
/// unit ticks, and any five in a row make 15 or 16.
pub proof fn lemma_five_steps(p: PpuState)
    requires
        p.wf(),
    ensures
        3 <= p.ticks_per_step() <= 4,
        15 <= p.ticks_over_steps(5) <= 16,
{
    let d = p.cpu_ticks as int;
    let n = p.ppu_ticks as int;
    let ph = p.phase as int;
    let k = p.ticks_per_step();
    vstd::arithmetic::div_mod::lemma_fundamental_div_mod(ph + n, d);
    let r = (ph + n) % d;
    assert(0 <= r < d) by {
        vstd::arithmetic::div_mod::lemma_mod_bound(ph + n, d);
    }
    assert(3 <= k <= 4) by (nonlinear_arith)
        requires
            k * d + r == ph + n,
            0 <= r < d,
            0 <= ph < d,
            15 * d <= 5 * n <= 16 * d,
    ;
    lemma_ticks_over_steps(p, 5);
    let total = p.ticks_over_steps(5);
    let last = p.steps(5).phase as int;
    assert(15 <= total <= 16) by (nonlinear_arith)
        requires
            total * d + last == ph + 5 * n,
            0 <= last < d,
            0 <= ph < d,
            15 * d <= 5 * n <= 16 * d,
    ;
}

pub proof fn lemma_ticks_keep(p: PpuState, k: nat)
    requires
        p.wf(),
    ensures
        p.ticks(k).wf(),
        p.ticks(k).oam == p.oam,
        p.ticks(k).vram == p.vram,
        p.ticks(k).phase == p.phase,
        p.ticks(k).ppu_ticks == p.ppu_ticks,
        p.ticks(k).cpu_ticks == p.cpu_ticks,
        p.ticks(k).regs.sprite_address == p.regs.sprite_address,
    decreases k,
{
    if k > 0 {
        lemma_ticks_keep(p, (k - 1) as nat);
    }
}

/// The picture unit.
pub struct PPU {
    /// The registers that the processor addresses.
    pub registers: RegisterBank,
    /// Object attribute memory.
    pub oam_data: Vec<u8>,
    pub memory: GraphicsMemory,
    /// Picture unit ticks per `cpu_ticks` processor ticks.
    pub ppu_ticks: u16,
    pub cpu_ticks: u16,
    /// Processor ticks carried over, in units of `1 / cpu_ticks` picture
    /// unit ticks.
    pub phase: u32,
    pub scanline: u16,
    pub cycles: u16,
}

impl View for PPU {
    type V = PpuState;

    open spec fn view(&self) -> PpuState {
        PpuState {
            regs: self.registers,
            oam: self.oam_data@,
            vram: self.memory.ram@,
            ppu_ticks: self.ppu_ticks,
            cpu_ticks: self.cpu_ticks,
            phase: self.phase,
            scanline: self.scanline,
            cycle: self.cycles,
        }
    }
}

impl PPU {
    pub open spec fn wf(&self) -> bool {
        self@.wf()
    }

    /// The picture unit at power-on, with the default clock ratio.
    pub fn init() -> (r: Self)
        ensures
            r.wf(),
            r@ == PpuState::power_on(DEFAULT_PPU_TICKS, DEFAULT_CPU_TICKS),
    {
        Self::with_clock_ratio(DEFAULT_PPU_TICKS, DEFAULT_CPU_TICKS)
    }

    /// The picture unit at power-on, advancing `ppu_ticks` ticks for every
    /// `cpu_ticks` processor ticks, a ratio from 3 to 3.2.
    pub fn with_clock_ratio(ppu_ticks: u16, cpu_ticks: u16) -> (r: Self)
        requires
            cpu_ticks > 0,
            clock_ratio_in_range(ppu_ticks, cpu_ticks),
        ensures
            r.wf(),
            r@ == PpuState::power_on(ppu_ticks, cpu_ticks),
    {
        Self {
            registers: RegisterBank::init(),
            oam_data: filled(OAM_SIZE, 0xff),
            memory: GraphicsMemory::init(),
            ppu_ticks,
            cpu_ticks,
            phase: 0,
            scanline: 0,
            cycles: 0,
        }
    }

    /// Reads register `address`: the status, the last byte written to the
    /// sprite data port, or the data register; the others read as zero.
    pub fn read_register(&mut self, address: u8) -> (r: u8)
        requires
            old(self).wf(),
        ensures
            final(self).wf(),
            (final(self)@, r) == old(self)@.read(address),
    {
        match address {
            2 => self.registers.read_status(),
            4 => self.registers.read_sprite_data(),
            7 => self.registers.read_ppu_data(),
            _ => 0,
        }
    }

    /// Advances by one processor tick.
    pub fn step(&mut self)
        requires
            old(self).wf(),
        ensures
            final(self).wf(),
            final(self)@ == old(self)@.step(),
    {
        let ghost start = self@;
        let total: u32 = self.phase + self.ppu_ticks as u32;
        let count: u32 = total / self.cpu_ticks as u32;
        let mut i: u32 = 0;
        while i < count
            invariant
                start.wf(),
                i <= count,
                total == start.phase + start.ppu_ticks,
                count == start.ticks_per_step(),
                self@ == start.ticks(i as nat),
            decreases count - i,
        {
            proof {
                lemma_ticks_keep(start, i as nat);
            }
            self.tick();
            i = i + 1;
        }
        proof {
            lemma_ticks_keep(start, count as nat);
            reveal(PpuState::step);
        }
        self.phase = total % self.cpu_ticks as u32;
    }

    fn tick(&mut self)
        requires
            old(self).wf(),
        ensures
            final(self).wf(),
            final(self)@ == old(self)@.tick(),
    {
        if self.scanline == VBLANK_SCANLINE && self.cycles == 0 {
            self.registers.set_vblank();
        }
        if self.cycles == LAST_CYCLE {
            self.cycles = 0;
            if self.scanline == LAST_SCANLINE {
                self.scanline = 0;
            } else {
                self.scanline = self.scanline + 1;
            }
        } else {
            self.cycles = self.cycles + 1;
        }
    }

    /// Writes register `address`; a write to the status register does
    /// nothing.
    pub fn write_register(&mut self, address: u8, value: u8)
        requires
            old(self).wf(),
            address < 8,
        ensures
            final(self).wf(),
            final(self)@ == old(self)@.write(address, value),
    {
        match address {
            0 => self.registers.write_cr1(value),
            1 => self.registers.write_cr2(value),
            3 => self.write_oam_address(value),
            4 => self.write_oam_data(value),
            5 => self.registers.write_ppu_scroll(value),
            6 => self.registers.write_ppu_address(value),
            7 => self.registers.write_ppu_data(value),
            _ => {},
        }
    }

    pub fn write_oam_address(&mut self, address: u8)
        ensures
            final(self)@ == (PpuState {
                regs: RegisterBank { sprite_address: address, ..old(self)@.regs },
                ..old(self)@
            }),
    {
        self.registers.write_sprite_address(address);
    }

    /// Writes sprite memory at the sprite address and advances it.
    pub fn write_oam_data(&mut self, data: u8)
        requires
            old(self).wf(),
        ensures
            final(self).wf(),
            final(self)@ == old(self)@.oam_written(data),
    {
        let address = self.registers.sprite_address;
        self.oam_data.set(address as usize, data);
        self.registers.write_sprite_address(address.wrapping_add(1));
        self.registers.write_sprite_data(data);
    }
}

} // verus!
