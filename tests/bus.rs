use neks::memory::MemoryBus;
use neks::ppu::PPU;
use neks::ppu_register::{InternalRegister, RegisterBank, VBLANK};

#[test]
fn status_read_twice_clears_vblank_and_latch() {
    let mut bus = MemoryBus::init();
    bus.ppu.registers.set_vblank();
    bus.write(0x2005, 0x10);
    assert!(!bus.ppu.registers.first_write);
    let first = bus.read(0x2002);
    assert_eq!(first & VBLANK, VBLANK);
    assert!(bus.ppu.registers.first_write);
    let second = bus.read(0x2002);
    assert_eq!(second & VBLANK, 0);
    assert!(bus.ppu.registers.first_write);
}

#[test]
fn status_register_is_mirrored_every_eight_bytes() {
    let mut bus = MemoryBus::init();
    bus.ppu.registers.set_vblank();
    assert_eq!(bus.read(0x3ffa) & VBLANK, VBLANK);
    assert_eq!(bus.read(0x2002) & VBLANK, 0);
}

fn dma_from_page_two(start_cycles: u64) -> (MemoryBus, u64) {
    let mut bus = MemoryBus::init();
    for i in 0..256u16 {
        bus.write_byte(0x0200 + i, (i as u8) ^ 0x5a);
    }
    bus.cycles = start_cycles;
    bus.write(0x4014, 0x02);
    let spent = bus.cycles - start_cycles;
    (bus, spent)
}

#[test]
fn dma_copies_page_on_even_cycle() {
    let (bus, spent) = dma_from_page_two(10);
    for i in 0..256usize {
        assert_eq!(bus.ppu.oam_data[i], (i as u8) ^ 0x5a);
    }
    assert_eq!(bus.ppu.registers.sprite_address, 0);
    assert_eq!(spent, 513);
}

#[test]
fn dma_on_odd_cycle_takes_one_more_tick() {
    let (bus, spent) = dma_from_page_two(11);
    assert_eq!(bus.ppu.oam_data[0x80], 0x80 ^ 0x5a);
    assert_eq!(spent, 514);
}

#[test]
fn dma_starts_at_sprite_address() {
    let mut bus = MemoryBus::init();
    bus.write(0x2003, 0x10);
    bus.write_byte(0x0300, 0xab);
    bus.write_byte(0x03f0, 0xcd);
    bus.write(0x4014, 0x03);
    assert_eq!(bus.ppu.oam_data[0x10], 0xab);
    assert_eq!(bus.ppu.oam_data[0x00], 0xcd);
    assert_eq!(bus.ppu.registers.sprite_address, 0x10);
}

#[test]
fn ram_mirrors_and_rom_is_read_only() {
    let mut bus = MemoryBus::init();
    bus.write(0x1801, 0x77);
    assert_eq!(bus.read(0x0001), 0x77);
    assert_eq!(bus.read(0x0801), 0x77);
    bus.write(0x8000, 0x12);
    assert_eq!(bus.read(0x8000), 0x00);
    assert_eq!(bus.read(0x5000), 0x00);
    assert_eq!(bus.cycles, 6);
}

#[test]
fn oam_data_port_writes_and_advances() {
    let mut bus = MemoryBus::init();
    bus.write(0x2003, 0xff);
    bus.write(0x2004, 0x21);
    bus.write(0x2004, 0x22);
    assert_eq!(bus.ppu.oam_data[0xff], 0x21);
    assert_eq!(bus.ppu.oam_data[0x00], 0x22);
    assert_eq!(bus.ppu.registers.sprite_address, 0x01);
    assert_eq!(bus.read(0x2004), 0x22);
}

#[test]
fn vblank_starts_once_per_frame() {
    let mut ppu = PPU::init();
    let mut sets = 0;
    // two frames of 312 lines of 341 cycles, at 16 ticks per 5 steps
    for _ in 0..(2 * 312 * 341 * 5 / 16) {
        ppu.step();
        if ppu.registers.status & VBLANK != 0 {
            sets += 1;
            ppu.read_register(2);
        }
    }
    assert_eq!(sets, 2);
}

#[test]
fn clock_ratio_is_configurable() {
    let mut ppu = PPU::init();
    for _ in 0..5 {
        ppu.step();
    }
    assert_eq!(ppu.cycles, 16);
    let mut ntsc = PPU::with_clock_ratio(3, 1);
    ntsc.step();
    assert_eq!(ntsc.cycles, 3);
    for _ in 0..113 {
        ntsc.step();
    }
    assert_eq!(ntsc.cycles, 1);
    assert_eq!(ntsc.scanline, 1);
}

#[test]
fn scroll_and_address_writes_alternate() {
    let mut bank = RegisterBank::init();
    bank.write_ppu_scroll(0x7d);
    assert_eq!(bank.t.coarse_x, 0x0f);
    assert_eq!(bank.fine_x_scroll, 0x05);
    assert!(!bank.first_write);
    bank.write_ppu_scroll(0x5e);
    assert_eq!(bank.t.y, 0x5e);
    assert!(bank.first_write);
    bank.write_ppu_address(0x23);
    assert_eq!(bank.t.y >> 6, 0x03);
    bank.write_ppu_address(0xc5);
    assert_eq!(bank.t.coarse_x, 0x05);
    assert_eq!((bank.t.y >> 3) & 0x07, 0x06);
    assert!(bank.first_write);
}

#[test]
fn internal_register_increments() {
    let mut r = InternalRegister::init();
    r.coarse_x = 31;
    r.increment_coarse_x();
    assert_eq!((r.coarse_x, r.nametable), (0, 1));
    r.increment_coarse_x();
    assert_eq!((r.coarse_x, r.nametable), (1, 1));
    r.y = 0xef;
    r.increment_y();
    assert_eq!((r.y, r.nametable), (0, 3));
    r.y = 0xff;
    r.increment_y();
    assert_eq!((r.y, r.nametable), (0, 3));
    r.increment_y();
    assert_eq!(r.y, 1);
}

#[test]
fn five_steps_make_fifteen_or_sixteen_ticks() {
    for (ppu_ticks, cpu_ticks) in [(16u16, 5u16), (31, 10), (3, 1)] {
        let mut ppu = PPU::with_clock_ratio(ppu_ticks, cpu_ticks);
        let position = |p: &PPU| p.scanline as u32 * 341 + p.cycles as u32;
        for _ in 0..40 {
            let before = position(&ppu);
            for _ in 0..5 {
                ppu.step();
            }
            let spent = position(&ppu) - before;
            assert!(spent == 15 || spent == 16, "{} ticks", spent);
        }
    }
}
