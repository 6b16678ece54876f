//! Plain counters of eight and sixteen bits.
use vstd::prelude::*;

verus! {

/// A sixteen-bit counter.
#[derive(Debug, Clone, Copy)]
pub struct Register16(pub u16);

/// An eight-bit counter.
#[derive(Debug, Clone, Copy)]
pub struct Register8(pub u8);

impl From<Register16> for u16 {
    fn from(reg: Register16) -> (r: u16) {
        reg.0
    }
}

impl vstd::std_specs::convert::FromSpecImpl<Register16> for u16 {
    open spec fn obeys_from_spec() -> bool {
        true
    }

    open spec fn from_spec(reg: Register16) -> u16 {
        reg.0
    }
}

impl Register8 {
    pub fn new(val: u8) -> (r: Self)
        ensures
            r.0 == val,
    {
        Self(val)
    }

    /// Adds one, wrapping from 255 to 0.
    pub fn increment(&mut self)
        ensures
            final(self).0 == (old(self).0 + 1) % 256,
    {
        self.0 = self.0.wrapping_add(1);
    }
}

impl Register16 {
    pub fn new(val: u16) -> (r: Self)
        ensures
            r.0 == val,
    {
        Self(val)
    }

    /// Adds one, wrapping from 65535 to 0.
    pub fn increment(&mut self)
        ensures
            final(self).0 == (old(self).0 + 1) % 65536,
    {
        self.0 = self.0.wrapping_add(1);
    }
}

} // verus!
