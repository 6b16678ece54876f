//! The processor's status flags and its bank of byte-wide registers.
use vstd::prelude::*;

verus! {

/// Negative.
pub const FLAG_N: u8 = 0b0000_0001;
/// Overflow.
pub const FLAG_V: u8 = 0b0000_0010;
/// Break.
pub const FLAG_B: u8 = 0b0000_1000;
/// Decimal mode.
pub const FLAG_D: u8 = 0b0001_0000;
/// Interrupt disable.
pub const FLAG_I: u8 = 0b0010_0000;
/// Zero.
pub const FLAG_Z: u8 = 0b0100_0000;
/// Carry.
pub const FLAG_C: u8 = 0b1000_0000;
/// The bits that name a flag; the one left over always reads as zero.
pub const DEFINED_FLAGS: u8 = 0b1111_1011;
/// The bit position that names no flag.
pub const UNUSED_FLAGS: u8 = 0b0000_0100;

/// `m` is set in the flags byte `p`.
pub open spec fn has_flag(p: u8, m: u8) -> bool {
    p & m == m
}

/// The flags byte `p` with the flags of `m` set when `on` holds, cleared
/// otherwise.
pub open spec fn with_flag(p: u8, m: u8, on: bool) -> u8 {
    if on {
        (p | m) & DEFINED_FLAGS
    } else {
        p & !m
    }
}

pub proof fn lemma_truncate_clears_unused(b: u8)
    ensures
        (b & DEFINED_FLAGS) & UNUSED_FLAGS == 0,
{
    assert((b & 0xfbu8) & 0x04u8 == 0) by (bit_vector);
}

pub proof fn lemma_remove_keeps_unused_clear(p: u8, m: u8)
    requires
        p & UNUSED_FLAGS == 0,
    ensures
        (p & !m) & UNUSED_FLAGS == 0,
{
    assert(p & 0x04u8 == 0 ==> (p & !m) & 0x04u8 == 0) by (bit_vector);
}

/// The processor status flags, held as one byte.
///
/// The position that names no flag is always clear: every way of making or
/// changing a value truncates to the defined bits.
#[derive(Clone, Copy, Debug)]
pub struct Flags {
    bits: u8,
}

impl View for Flags {
    type V = u8;

    closed spec fn view(&self) -> u8 {
        self.bits
    }
}

impl Flags {
    pub open spec fn wf(self) -> bool {
        self@ & UNUSED_FLAGS == 0
    }

    /// Flags from a raw byte, dropping the bit that names no flag.
    pub fn from_bits_truncate(bits: u8) -> (r: Flags)
        ensures
            r@ == bits & DEFINED_FLAGS,
            r.wf(),
    {
        proof {
            lemma_truncate_clears_unused(bits);
        }
        Flags { bits: bits & DEFINED_FLAGS }
    }

    /// The raw byte.
    pub fn bits(&self) -> (r: u8)
        ensures
            r == self@,
    {
        self.bits
    }

    /// All flags of `m` are set.
    pub fn contains(&self, m: u8) -> (r: bool)
        ensures
            r == has_flag(self@, m),
    {
        self.bits & m == m
    }

    /// Sets the flags of `m`.
    pub fn insert(&mut self, m: u8)
        ensures
            final(self)@ == with_flag(old(self)@, m, true),
            final(self).wf(),
    {
        proof {
            lemma_truncate_clears_unused(self.bits | m);
        }
        self.bits = (self.bits | m) & DEFINED_FLAGS;
    }

    /// Clears the flags of `m`.
    pub fn remove(&mut self, m: u8)
        requires
            old(self).wf(),
        ensures
            final(self)@ == with_flag(old(self)@, m, false),
            final(self).wf(),
    {
        proof {
            lemma_remove_keeps_unused_clear(self.bits, m);
        }
        self.bits = self.bits & !m;
    }

    /// Sets the flags of `m` when `on` holds, clears them otherwise.
    pub fn set(&mut self, m: u8, on: bool)
        requires
            old(self).wf(),
        ensures
            final(self)@ == with_flag(old(self)@, m, on),
            final(self).wf(),
    {
        if on {
            self.insert(m);
        } else {
            self.remove(m);
        }
    }
}

impl Flags {
    /// The flags of a raw byte, truncated to the defined bits.
    pub closed spec fn truncated(bits: u8) -> Flags {
        Flags { bits: bits & DEFINED_FLAGS }
    }

    pub proof fn lemma_truncated_view(bits: u8)
        ensures
            Flags::truncated(bits)@ == bits & DEFINED_FLAGS,
            Flags::truncated(bits).wf(),
    {
        lemma_truncate_clears_unused(bits);
    }
}

impl From<u8> for Flags {
    fn from(value: u8) -> (r: Flags) {
        Flags::from_bits_truncate(value)
    }
}

impl vstd::std_specs::convert::FromSpecImpl<u8> for Flags {
    open spec fn obeys_from_spec() -> bool {
        true
    }

    open spec fn from_spec(value: u8) -> Flags {
        Flags::truncated(value)
    }
}

impl From<Flags> for u8 {
    fn from(flags: Flags) -> (r: u8) {
        flags.bits()
    }
}

impl vstd::std_specs::convert::FromSpecImpl<Flags> for u8 {
    open spec fn obeys_from_spec() -> bool {
        true
    }

    open spec fn from_spec(flags: Flags) -> u8 {
        flags@
    }
}

/// A byte turned into flags and back keeps its defined bits and reads the
/// bit that names no flag as zero; flags turned into a byte and back are
/// the same flags.
pub proof fn lemma_flags_byte_round_trip(b: u8, f: Flags)
    requires
        f.wf(),
    ensures
        <u8 as vstd::std_specs::convert::FromSpec<Flags>>::from_spec(
            <Flags as vstd::std_specs::convert::FromSpec<u8>>::from_spec(b),
        ) == b & DEFINED_FLAGS,
        <Flags as vstd::std_specs::convert::FromSpec<u8>>::from_spec(
            <u8 as vstd::std_specs::convert::FromSpec<Flags>>::from_spec(f),
        ) == f,
{
    let x = f.bits;
    assert(x & 0x04u8 == 0 ==> x & 0xfbu8 == x) by (bit_vector);
}

/// The registers of the processor but the program counter.
#[derive(Clone, Copy, Debug)]
pub struct Registers {
    /// Accumulator.
    pub a: u8,
    /// X index.
    pub x: u8,
    /// Y index.
    pub y: u8,
    /// Stack pointer.
    pub s: u8,
    /// Status flags.
    pub p: Flags,
}

/// The registers as plain values.
pub ghost struct RegState {
    pub a: u8,
    pub x: u8,
    pub y: u8,
    pub s: u8,
    pub p: u8,
}

impl View for Registers {
    type V = RegState;

    open spec fn view(&self) -> RegState {
        RegState { a: self.a, x: self.x, y: self.y, s: self.s, p: self.p@ }
    }
}

impl Registers {
    pub open spec fn wf(self) -> bool {
        self.p.wf()
    }

    /// All registers at zero, as at power-on.
    pub fn init() -> (r: Registers)
        ensures
            r@ == (RegState { a: 0, x: 0, y: 0, s: 0, p: 0 }),
            r.wf(),
    {
        let p = Flags::from_bits_truncate(0);
        proof {
            assert(0u8 & DEFINED_FLAGS == 0) by (bit_vector);
        }
        Registers { a: 0, x: 0, y: 0, s: 0, p }
    }
}

} // verus!
