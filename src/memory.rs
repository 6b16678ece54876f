//! The processor's memory bus: work RAM and its mirrors, the picture unit's
//! registers and their mirrors, the sprite DMA port and the program ROM.
//! Every access through `read` or `write` is one processor tick, and each
//! tick steps the picture unit.
use vstd::prelude::*;
use crate::buffer::filled;
use crate::ines::Cartridge;
use crate::ppu::{PPU, PpuState, DEFAULT_CPU_TICKS, DEFAULT_PPU_TICKS, lemma_step_keeps};

verus! {

/// Bytes of work RAM.
pub const RAM_SIZE: usize = 0x800;
/// Bytes of the program ROM window.
pub const ROM_SIZE: usize = 0x8000;
/// First address past the work RAM mirrors.
pub const RAM_END: u16 = 0x2000;
/// First address past the picture unit register mirrors.
pub const PPU_REGISTERS_END: u16 = 0x4000;
/// Writing a page number here copies that page into sprite memory.
pub const OAM_DMA: u16 = 0x4014;
/// First address of the program ROM window.
pub const ROM_START: u16 = 0x8000;
/// Bytes copied by one sprite DMA.
pub const DMA_LENGTH: u16 = 256;

/// The bus as plain values.
pub ghost struct BusState {
    pub ram: Seq<u8>,
    pub rom: Seq<u8>,
    pub ppu: PpuState,
    pub cycles: u64,
}

/// The program ROM window filled from a program image, repeated when the
/// image is shorter than the window.
pub open spec fn rom_image(prg: Seq<u8>) -> Seq<u8> {
    Seq::new(ROM_SIZE as nat, |i: int| prg[i % (prg.len() as int)])
}

impl BusState {
    pub open spec fn wf(self) -> bool {
        &&& self.ram.len() == RAM_SIZE
        &&& self.rom.len() == ROM_SIZE
        &&& self.ppu.wf()
    }

    /// One processor tick.
    pub open spec fn tick(self) -> BusState {
        BusState { cycles: ((self.cycles + 1) % 0x1_0000_0000_0000_0000) as u64, ppu: self.ppu.step(), ..self }
    }

    /// What reading `address` gives, without the tick: the state after
    /// (a status read changes it) and the value. Unmapped addresses read
    /// as zero.
    pub open spec fn peek(self, address: u16) -> (BusState, u8) {
        if address < RAM_END {
            (self, self.ram[address as int % (RAM_SIZE as int)])
        } else if address < PPU_REGISTERS_END {
            let (ppu, value) = self.ppu.read((address % 8) as u8);
            (BusState { ppu, ..self }, value)
        } else if address >= ROM_START {
            (self, self.rom[address as int - ROM_START as int])
        } else {
            (self, 0)
        }
    }

    /// A read: the access, then one tick.
    #[verifier::opaque]
    pub open spec fn read(self, address: u16) -> (BusState, u8) {
        let (after, value) = self.peek(address);
        (after.tick(), value)
    }

    /// What writing `value` to `address` does, without the write's own tick.
    /// The ROM window and unmapped addresses ignore writes.
    pub open spec fn poke(self, address: u16, value: u8) -> BusState {
        if address < RAM_END {
            BusState { ram: self.ram.update(address as int % (RAM_SIZE as int), value), ..self }
        } else if address < PPU_REGISTERS_END {
            BusState { ppu: self.ppu.write((address % 8) as u8, value), ..self }
        } else if address == OAM_DMA {
            self.dma(value)
        } else {
            self
        }
    }

    /// A write: the access, then one tick.
    #[verifier::opaque]
    pub open spec fn write(self, address: u16, value: u8) -> BusState {
        self.poke(address, value).tick()
    }

    /// The first `n` bytes of a sprite DMA from `page`: each is read, one
    /// tick, written to sprite memory, one tick.
    pub open spec fn dma_copy(self, page: u8, n: nat) -> BusState
        decreases n,
    {
        if n == 0 {
            self
        } else {
            let before = self.dma_copy(page, (n - 1) as nat);
            let (after_read, data) = before.peek((page as int * 256 + (n - 1)) as u16);
            let after_tick = after_read.tick();
            BusState { ppu: after_tick.ppu.oam_written(data), ..after_tick }.tick()
        }
    }

    /// A sprite DMA from `page`: one idle tick first when the cycle count is
    /// odd, then the 256 bytes of the page.
    pub open spec fn dma(self, page: u8) -> BusState {
        let start = if self.cycles % 2 == 1 { self.tick() } else { self };
        start.dma_copy(page, DMA_LENGTH as nat)
    }
}

/// The processor's view of memory. It owns the work RAM, the program ROM
/// and the picture unit.
pub struct MemoryBus {
    pub memory: Vec<u8>,
    pub rom_data: Vec<u8>,
    pub ppu: PPU,
    /// Processor ticks since power-on, wrapping.
    pub cycles: u64,
}

impl View for MemoryBus {
    type V = BusState;

    open spec fn view(&self) -> BusState {
        BusState { ram: self.memory@, rom: self.rom_data@, ppu: self.ppu@, cycles: self.cycles }
    }
}

pub proof fn lemma_tick_keeps(b: BusState)
    requires
        b.wf(),
    ensures
        b.tick().wf(),
        b.tick().ram == b.ram,
        b.tick().rom == b.rom,
        b.tick().ppu.oam == b.ppu.oam,
        b.tick().ppu.regs.sprite_address == b.ppu.regs.sprite_address,
        b.tick().cycles == (b.cycles + 1) % 0x1_0000_0000_0000_0000,
{
    lemma_step_keeps(b.ppu);
}

/// Where the `i`-th byte of a sprite DMA lands when the sprite address was
/// `start`.
pub open spec fn oam_slot(start: int, i: int) -> int {
    (start + i) % 256
}

proof fn lemma_slots_distinct(start: int, i: int, j: int)
    requires
        0 <= i < 256,
        0 <= j < 256,
        i != j,
    ensures
        oam_slot(start, i) != oam_slot(start, j),
{
}

proof fn lemma_wrapping_add(x: int, k: int, m: int)
    requires
        m > 0,
    ensures
        (x % m + k) % m == (x + k) % m,
{
    vstd::arithmetic::div_mod::lemma_add_mod_noop_right(k, x, m);
}

#[verifier::rlimit(50)]
proof fn lemma_dma_copy(b: BusState, page: u8, n: nat)
    requires
        b.wf(),
        !(0x20 <= page < 0x40),
        n <= DMA_LENGTH,
    ensures
        ({
            let a = b.dma_copy(page, n);
            let start = b.ppu.regs.sprite_address as int;
            &&& a.wf()
            &&& a.ram == b.ram
            &&& a.rom == b.rom
            &&& a.ppu.regs.sprite_address == (start + n) % 256
            &&& a.cycles == (b.cycles + 2 * n) % 0x1_0000_0000_0000_0000
            &&& forall|i: int| 0 <= i < n ==> a.ppu.oam[#[trigger] oam_slot(start, i)]
                == b.peek((page * 256 + i) as u16).1
            &&& forall|i: int| n <= i < 256 ==> a.ppu.oam[#[trigger] oam_slot(start, i)]
                == b.ppu.oam[oam_slot(start, i)]
        }),
    decreases n,
{
    if n > 0 {
        let m = (n - 1) as nat;
        lemma_dma_copy(b, page, m);
        let before = b.dma_copy(page, m);
        let address = (page as int * 256 + m) as u16;
        let (after_read, data) = before.peek(address);
        assert(after_read == before);
        assert(data == b.peek(address).1);
        lemma_tick_keeps(before);
        let after_tick = after_read.tick();
        let written = BusState { ppu: after_tick.ppu.oam_written(data), ..after_tick };
        lemma_tick_keeps(written);
        let a = written.tick();
        assert(b.dma_copy(page, n) == a);
        let start = b.ppu.regs.sprite_address as int;
        assert(after_tick.ppu.regs.sprite_address == oam_slot(start, m as int));
        assert(a.ppu.oam == before.ppu.oam.update(oam_slot(start, m as int), data));
        lemma_wrapping_add(b.cycles + 2 * m, 1, 0x1_0000_0000_0000_0000);
        lemma_wrapping_add(b.cycles + 2 * m + 1, 1, 0x1_0000_0000_0000_0000);
        lemma_wrapping_add(start + m, 1, 256);
        assert forall|i: int| 0 <= i < n implies a.ppu.oam[#[trigger] oam_slot(start, i)]
            == b.peek((page * 256 + i) as u16).1 by {
            if i < m {
                lemma_slots_distinct(start, i, m as int);
            }
        }
        assert forall|i: int| n <= i < 256 implies a.ppu.oam[#[trigger] oam_slot(start, i)]
            == b.ppu.oam[oam_slot(start, i)] by {
            lemma_slots_distinct(start, i, m as int);
        }
    }
}

/// A write of a page number to the DMA port copies the 256 bytes that
/// reading that page gives into sprite memory in order, from the sprite
/// address on, which then stands where it stood before. With the write's
/// own tick it takes 513 ticks when the cycle count was even, 514 when it
/// was odd. Pages of the picture unit's registers are left out: reading
/// them has side effects that the ticks between the reads interleave with.
pub proof fn lemma_dma_copies_page(b: BusState, page: u8)
    requires
        b.wf(),
        !(0x20 <= page < 0x40),
    ensures
        ({
            let a = b.write(OAM_DMA, page);
            let start = b.ppu.regs.sprite_address as int;
            &&& a.wf()
            &&& a.ram == b.ram
            &&& a.ppu.regs.sprite_address == start
            &&& forall|i: int| 0 <= i < 256 ==> a.ppu.oam[#[trigger] oam_slot(start, i)]
                == b.peek((page * 256 + i) as u16).1
            &&& a.cycles == (b.cycles + if b.cycles % 2 == 0 { 513int } else { 514int })
                % 0x1_0000_0000_0000_0000
        }),
{
    reveal(BusState::write);
    let first = if b.cycles % 2 == 1 { b.tick() } else { b };
    lemma_tick_keeps(b);
    lemma_dma_copy(first, page, DMA_LENGTH as nat);
    let copied = first.dma_copy(page, DMA_LENGTH as nat);
    assert(b.poke(OAM_DMA, page) == copied);
    lemma_tick_keeps(copied);
    lemma_wrapping_add(b.cycles as int, 1, 0x1_0000_0000_0000_0000);
    lemma_wrapping_add(first.cycles + 512, 1, 0x1_0000_0000_0000_0000);
    lemma_wrapping_add(b.cycles + 1, 512, 0x1_0000_0000_0000_0000);
    let start = b.ppu.regs.sprite_address as int;
    assert forall|i: int| 0 <= i < 256 implies #[trigger] first.peek((page * 256 + i) as u16).1
        == b.peek((page * 256 + i) as u16).1 by {}
}

/// A read of work RAM gives the byte at the mirrored address and ticks.
pub proof fn lemma_ram_read(b: BusState, address: u16)
    requires
        b.wf(),
        address < RAM_END,
    ensures
        b.read(address) == (b.tick(), b.ram[address as int % (RAM_SIZE as int)]),
{
    reveal(BusState::read);
}

/// A write of work RAM stores at the mirrored address and ticks.
pub proof fn lemma_ram_write(b: BusState, address: u16, value: u8)
    requires
        b.wf(),
        address < RAM_END,
    ensures
        b.write(address, value) == (BusState {
            ram: b.ram.update(address as int % (RAM_SIZE as int), value),
            ..b
        }).tick(),
{
    reveal(BusState::write);
}

impl MemoryBus {
    pub open spec fn wf(&self) -> bool {
        self@.wf()
    }

    /// Zeroed RAM and ROM, and the picture unit at power-on.
    pub fn init() -> (r: Self)
        ensures
            r.wf(),
            r@.ram == Seq::new(RAM_SIZE as nat, |i: int| 0u8),
            r@.rom == Seq::new(ROM_SIZE as nat, |i: int| 0u8),
            r@.ppu == PpuState::power_on(DEFAULT_PPU_TICKS, DEFAULT_CPU_TICKS),
            r@.cycles == 0,
    {
        Self { memory: filled(RAM_SIZE, 0), rom_data: filled(ROM_SIZE, 0), ppu: PPU::init(), cycles: 0 }
    }

    /// Reads a byte, then ticks.
    pub fn read(&mut self, address: u16) -> (r: u8)
        requires
            old(self).wf(),
        ensures
            final(self).wf(),
            (final(self)@, r) == old(self)@.read(address),
    {
        let result = self.read_byte(address);
        self.tick();
        proof {
            reveal(BusState::read);
        }
        result
    }

    /// Writes a byte, then ticks.
    pub fn write(&mut self, address: u16, value: u8)
        requires
            old(self).wf(),
        ensures
            final(self).wf(),
            final(self)@ == old(self)@.write(address, value),
    {
        self.write_byte(address, value);
        self.tick();
        proof {
            reveal(BusState::write);
        }
    }

    /// Reads a byte without a tick. A read of the picture unit's status has
    /// its side effects here too.
    pub fn read_byte(&mut self, address: u16) -> (r: u8)
        requires
            old(self).wf(),
        ensures
            final(self).wf(),
            (final(self)@, r) == old(self)@.peek(address),
    {
        if address < RAM_END {
            self.memory[address as usize % RAM_SIZE]
        } else if address < PPU_REGISTERS_END {
            self.ppu.read_register((address % 8) as u8)
        } else if address >= ROM_START {
            self.rom_data[(address - ROM_START) as usize]
        } else {
            0
        }
    }

    /// Writes a byte without a tick; a write to the DMA port runs the whole
    /// transfer.
    pub fn write_byte(&mut self, address: u16, value: u8)
        requires
            old(self).wf(),
        ensures
            final(self).wf(),
            final(self)@ == old(self)@.poke(address, value),
    {
        if address < RAM_END {
            self.memory.set(address as usize % RAM_SIZE, value);
        } else if address < PPU_REGISTERS_END {
            self.ppu.write_register((address % 8) as u8, value);
        } else if address == OAM_DMA {
            self.write_dma(value);
        }
    }

    /// A sprite DMA from `page`: one idle tick when the cycle count is odd,
    /// then each of the 256 bytes read, a tick, written to sprite memory, a
    /// tick.
    pub fn write_dma(&mut self, page: u8)
        requires
            old(self).wf(),
        ensures
            final(self).wf(),
            final(self)@ == old(self)@.dma(page),
    {
        if self.cycles % 2 == 1 {
            self.tick();
        }
        let ghost start = self@;
        let base: u16 = page as u16 * 256;
        let mut i: u16 = 0;
        while i < DMA_LENGTH
            invariant
                start.wf(),
                i <= DMA_LENGTH,
                base == page as int * 256,
                self.wf(),
                self@ == start.dma_copy(page, i as nat),
            decreases DMA_LENGTH - i,
        {
            let data = self.read_byte(base + i);
            self.tick();
            self.ppu.write_oam_data(data);
            self.tick();
            i = i + 1;
        }
    }

    /// Fills the program ROM window from the cartridge's program image,
    /// repeating an image shorter than the window. An empty image leaves the
    /// window as it is.
    pub fn load_cartridge(&mut self, cartridge: &Cartridge)
        requires
            old(self).wf(),
        ensures
            final(self).wf(),
            cartridge.prg_rom_data@.len() > 0 ==> final(self)@ == (BusState {
                rom: rom_image(cartridge.prg_rom_data@),
                ..old(self)@
            }),
            cartridge.prg_rom_data@.len() == 0 ==> final(self)@ == old(self)@,
    {
        let prg = &cartridge.prg_rom_data;
        let len = prg.len();
        if len == 0 {
            return;
        }
        let mut i: usize = 0;
        while i < ROM_SIZE
            invariant
                self.wf(),
                len == prg@.len(),
                len > 0,
                i <= ROM_SIZE,
                self@.ram == old(self)@.ram,
                self@.ppu == old(self)@.ppu,
                self@.cycles == old(self)@.cycles,
                forall|k: int| 0 <= k < i ==> self@.rom[k] == rom_image(prg@)[k],
            decreases ROM_SIZE - i,
        {
            self.rom_data.set(i, prg[i % len]);
            i = i + 1;
        }
        assert(self@.rom =~= rom_image(prg@));
    }

    fn tick(&mut self)
        requires
            old(self).wf(),
        ensures
            final(self).wf(),
            final(self)@ == old(self)@.tick(),
    {
        self.cycles = self.cycles.wrapping_add(1);
        self.ppu.step();
    }
}

} // verus!
