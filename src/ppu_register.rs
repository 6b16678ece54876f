//! The picture unit's registers: the eight that the processor addresses,
//! and the two internal scroll registers behind them.
use vstd::prelude::*;

verus! {

/// Status bit set at the start of vertical blank.
pub const VBLANK: u8 = 0b1000_0000;
/// Defined bits of control register 1.
pub const CR1_DEFINED: u8 = 0b1011_1111;
/// Defined bits of control register 2.
pub const CR2_DEFINED: u8 = 0b1111_0111;
/// Defined bits of the status register.
pub const STATUS_DEFINED: u8 = 0b1110_0000;

/// An internal scroll register of fifteen bits, held in its fields: coarse X
/// (five bits), Y (eight bits, coarse Y times eight plus fine Y) and the
/// nametable select (two bits).
#[derive(Clone, Copy, Debug, PartialEq, Eq, Structural)]
pub struct InternalRegister {
    pub coarse_x: u8,
    pub y: u8,
    pub nametable: u8,
}

proof fn lemma_address_bits(y: u8, v: u8)
    ensures
        ((y & 0xc7) | ((v & 0xe0) >> 2u8)) % 8 == y % 8,
        (((y & 0xc7) | ((v & 0xe0) >> 2u8)) / 8) % 8 == v / 32,
        ((y & 0xc7) | ((v & 0xe0) >> 2u8)) / 64 == y / 64,
        ((y & 0x38) | ((v & 0x70) >> 4u8) | ((v & 3) << 6u8)) % 8 == (v / 16) % 8,
        (((y & 0x38) | ((v & 0x70) >> 4u8) | ((v & 3) << 6u8)) / 8) % 8 == (y / 8) % 8,
        ((y & 0x38) | ((v & 0x70) >> 4u8) | ((v & 3) << 6u8)) / 64 == v % 4,
        v & 0x1f == v % 32,
        (v & 0xf8) >> 3u8 == v / 8,
{
    assert(((y & 0xc7) | ((v & 0xe0) >> 2u8)) % 8 == y % 8) by (bit_vector);
    assert((((y & 0xc7) | ((v & 0xe0) >> 2u8)) / 8) % 8 == v / 32) by (bit_vector);
    assert(((y & 0xc7) | ((v & 0xe0) >> 2u8)) / 64 == y / 64) by (bit_vector);
    assert(((y & 0x38) | ((v & 0x70) >> 4u8) | ((v & 3) << 6u8)) % 8 == (v / 16) % 8)
        by (bit_vector);
    assert((((y & 0x38) | ((v & 0x70) >> 4u8) | ((v & 3) << 6u8)) / 8) % 8 == (y / 8) % 8)
        by (bit_vector);
    assert(((y & 0x38) | ((v & 0x70) >> 4u8) | ((v & 3) << 6u8)) / 64 == v % 4)
        by (bit_vector);
    assert(v & 0x1f == v % 32) by (bit_vector);
    assert((v & 0xf8) >> 3u8 == v / 8) by (bit_vector);
}

proof fn lemma_nametable_flip(n: u8)
    requires
        n < 4,
    ensures
        n ^ 1 < 4,
        n ^ 2 < 4,
{
    assert(n < 4 ==> n ^ 1 < 4 && n ^ 2 < 4) by (bit_vector);
}

impl InternalRegister {
    pub open spec fn wf(self) -> bool {
        self.coarse_x < 32 && self.nametable < 4
    }

    /// Second address write: coarse X from bits 0-4, the low three bits of
    /// coarse Y from bits 5-7.
    pub open spec fn with_low_address(self, value: u8) -> InternalRegister {
        InternalRegister {
            coarse_x: value & 0x1f,
            y: (self.y & 0xc7) | ((value & 0xe0) >> 2u8),
            nametable: self.nametable,
        }
    }

    /// First address write: the high two bits of coarse Y from bits 0-1,
    /// fine Y from bits 4-6.
    pub open spec fn with_high_address(self, value: u8) -> InternalRegister {
        InternalRegister {
            y: (self.y & 0x38) | ((value & 0x70) >> 4u8) | ((value & 3) << 6u8),
            ..self
        }
    }

    pub fn init() -> (r: Self)
        ensures
            r == (InternalRegister { coarse_x: 0, y: 0, nametable: 0 }),
            r.wf(),
    {
        Self { coarse_x: 0, y: 0, nametable: 0 }
    }

    pub fn set_low_address(&mut self, value: u8)
        ensures
            *final(self) == old(self).with_low_address(value),
            final(self).coarse_x == value % 32,
            final(self).y % 8 == old(self).y % 8,
            (final(self).y / 8) % 8 == value / 32,
            final(self).y / 64 == old(self).y / 64,
    {
        proof {
            lemma_address_bits(self.y, value);
        }
        self.coarse_x = value & 0b0001_1111;
        let y = (value & 0b1110_0000) >> 2u8;
        self.y = (self.y & 0b1100_0111) | y;
    }

    pub fn set_high_address(&mut self, value: u8)
        ensures
            *final(self) == old(self).with_high_address(value),
            final(self).y % 8 == (value / 16) % 8,
            (final(self).y / 8) % 8 == (old(self).y / 8) % 8,
            final(self).y / 64 == value % 4,
    {
        proof {
            lemma_address_bits(self.y, value);
        }
        let coarse_y = value & 0b0011;
        let fine_y = (value & 0b0111_0000) >> 4u8;
        self.y = (self.y & 0b0011_1000) | fine_y | (coarse_y << 6u8);
    }

    /// First scroll write: coarse X is the written value divided by eight.
    pub fn write_x_scroll(&mut self, value: u8)
        ensures
            *final(self) == (InternalRegister { coarse_x: value / 8, ..*old(self) }),
    {
        proof {
            lemma_address_bits(self.y, value);
        }
        self.coarse_x = (value & 0b1111_1000) >> 3u8;
    }

    /// Second scroll write: Y is the written value.
    pub fn write_y_scroll(&mut self, value: u8)
        ensures
            *final(self) == (InternalRegister { y: value, ..*old(self) }),
    {
        self.y = value;
    }

    /// Moves one tile right; past the last column it wraps and switches to
    /// the horizontally adjacent nametable.
    pub fn increment_coarse_x(&mut self)
        requires
            old(self).wf(),
        ensures
            final(self).wf(),
            final(self).coarse_x == (old(self).coarse_x + 1) % 32,
            final(self).y == old(self).y,
            final(self).nametable == if old(self).coarse_x == 31 {
                old(self).nametable ^ 1
            } else {
                old(self).nametable
            },
    {
        proof {
            lemma_nametable_flip(self.nametable);
        }
        if self.coarse_x == 31 {
            self.coarse_x = 0;
            self.nametable = self.nametable ^ 1;
        } else {
            self.coarse_x = self.coarse_x + 1;
        }
    }

    /// Moves one pixel row down. After the last row of the last tile row
    /// (coarse Y 29, fine Y 7) it wraps and switches to the vertically
    /// adjacent nametable; at 255 it wraps without switching.
    pub fn increment_y(&mut self)
        requires
            old(self).wf(),
        ensures
            final(self).wf(),
            final(self).coarse_x == old(self).coarse_x,
            final(self).y == if old(self).y == 0xef { 0 } else { (old(self).y + 1) % 256 },
            final(self).nametable == if old(self).y == 0xef {
                old(self).nametable ^ 2
            } else {
                old(self).nametable
            },
    {
        proof {
            lemma_nametable_flip(self.nametable);
        }
        if self.y == 0b1110_1111 {
            self.y = 0;
            self.nametable = self.nametable ^ 0b10;
        } else if self.y == 0b1111_1111 {
            self.y = 0;
        } else {
            self.y = self.y + 1;
        }
    }
}

/// The registers that the processor reaches through the bus, with the
/// shared write toggle of the scroll and address ports.
#[derive(Clone, Copy, Debug, PartialEq, Eq, Structural)]
pub struct RegisterBank {
    pub cr1: u8,
    pub cr2: u8,
    pub status: u8,
    /// The object attribute memory address.
    pub sprite_address: u8,
    /// The last value written to the object attribute memory port.
    pub sprite_data: u8,
    pub ppu_data: u8,
    /// The next scroll or address write is the first of a pair.
    pub first_write: bool,
    pub fine_x_scroll: u8,
    pub t: InternalRegister,
    pub v: InternalRegister,
}

impl RegisterBank {
    pub open spec fn wf(self) -> bool {
        &&& self.t.wf()
        &&& self.v.wf()
    }

    /// A status read: the value before, and the bank with vertical blank
    /// cleared and the write toggle back at the first write.
    pub open spec fn status_read(self) -> (RegisterBank, u8) {
        (RegisterBank { status: self.status & !VBLANK, first_write: true, ..self }, self.status)
    }

    pub open spec fn scroll_written(self, bits: u8) -> RegisterBank {
        if self.first_write {
            RegisterBank {
                t: InternalRegister { coarse_x: bits / 8, ..self.t },
                fine_x_scroll: bits % 8,
                first_write: false,
                ..self
            }
        } else {
            RegisterBank { t: InternalRegister { y: bits, ..self.t }, first_write: true, ..self }
        }
    }

    pub open spec fn address_written(self, bits: u8) -> RegisterBank {
        if self.first_write {
            RegisterBank { t: self.t.with_high_address(bits), first_write: false, ..self }
        } else {
            RegisterBank { t: self.t.with_low_address(bits), first_write: true, ..self }
        }
    }

    /// The bank at power-on: all zero, the toggle at the first write.
    pub open spec fn power_on() -> RegisterBank {
        RegisterBank {
            cr1: 0,
            cr2: 0,
            status: 0,
            sprite_address: 0,
            sprite_data: 0,
            ppu_data: 0,
            first_write: true,
            fine_x_scroll: 0,
            t: InternalRegister { coarse_x: 0, y: 0, nametable: 0 },
            v: InternalRegister { coarse_x: 0, y: 0, nametable: 0 },
        }
    }

    pub fn init() -> (r: Self)
        ensures
            r == RegisterBank::power_on(),
            r.wf(),
    {
        Self {
            cr1: 0,
            cr2: 0,
            status: 0,
            sprite_address: 0,
            sprite_data: 0,
            ppu_data: 0,
            first_write: true,
            fine_x_scroll: 0,
            t: InternalRegister::init(),
            v: InternalRegister::init(),
        }
    }

    /// Reads the status register. Every read clears vertical blank and sets
    /// the write toggle back to the first write.
    pub fn read_status(&mut self) -> (r: u8)
        ensures
            (*final(self), r) == old(self).status_read(),
    {
        let value = self.status;
        self.first_write = true;
        self.status = self.status & !VBLANK;
        value
    }

    pub fn read_sprite_data(&self) -> (r: u8)
        ensures
            r == self.sprite_data,
    {
        self.sprite_data
    }

    pub fn read_ppu_data(&self) -> (r: u8)
        ensures
            r == self.ppu_data,
    {
        self.ppu_data
    }

    pub fn set_vblank(&mut self)
        ensures
            *final(self) == (RegisterBank { status: old(self).status | VBLANK, ..*old(self) }),
    {
        self.status = self.status | VBLANK;
    }

    pub fn write_cr1(&mut self, bits: u8)
        ensures
            *final(self) == (RegisterBank { cr1: bits & CR1_DEFINED, ..*old(self) }),
    {
        self.cr1 = bits & CR1_DEFINED;
    }

    pub fn write_cr2(&mut self, bits: u8)
        ensures
            *final(self) == (RegisterBank { cr2: bits & CR2_DEFINED, ..*old(self) }),
    {
        self.cr2 = bits & CR2_DEFINED;
    }

    pub fn write_sprite_address(&mut self, bits: u8)
        ensures
            *final(self) == (RegisterBank { sprite_address: bits, ..*old(self) }),
    {
        self.sprite_address = bits;
    }

    pub fn write_sprite_data(&mut self, bits: u8)
        ensures
            *final(self) == (RegisterBank { sprite_data: bits, ..*old(self) }),
    {
        self.sprite_data = bits;
    }

    /// The first write of a pair sets coarse X and fine X, the second Y; the
    /// toggle flips on each.
    pub fn write_ppu_scroll(&mut self, bits: u8)
        requires
            old(self).wf(),
        ensures
            final(self).wf(),
            *final(self) == old(self).scroll_written(bits),
    {
        if self.first_write {
            self.t.write_x_scroll(bits);
            proof {
                assert(bits & 7 == bits % 8) by (bit_vector);
            }
            self.fine_x_scroll = bits & 0b0000_0111;
        } else {
            self.t.write_y_scroll(bits);
        }
        self.first_write = !self.first_write;
    }

    /// The first write of a pair sets the high part of the address, the
    /// second the low part; the toggle flips on each.
    pub fn write_ppu_address(&mut self, bits: u8)
        requires
            old(self).wf(),
        ensures
            final(self).wf(),
            *final(self) == old(self).address_written(bits),
    {
        if self.first_write {
            self.t.set_high_address(bits);
        } else {
            self.t.set_low_address(bits);
        }
        self.first_write = !self.first_write;
    }

    pub fn write_ppu_data(&mut self, bits: u8)
        ensures
            *final(self) == (RegisterBank { ppu_data: bits, ..*old(self) }),
    {
        self.ppu_data = bits;
    }
}

/// Two status reads in a row: the first returns the vertical blank bit as
/// it was and clears it; the second returns it clear, and leaves the write
/// toggle at the first write.
pub proof fn lemma_status_read_twice(bank: RegisterBank)
    ensures
        ({
            let (after_first, first) = bank.status_read();
            let (after_second, second) = after_first.status_read();
            &&& first & VBLANK == bank.status & VBLANK
            &&& after_first.status & VBLANK == 0
            &&& second & VBLANK == 0
            &&& after_second.first_write
        }),
{
    let s = bank.status;
    assert((s & !0x80u8) & 0x80u8 == 0) by (bit_vector);
    assert(((s & !0x80u8) & !0x80u8) & 0x80u8 == 0) by (bit_vector);
}

} // verus!
