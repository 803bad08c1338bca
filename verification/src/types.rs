//! Primitive value types of the machine.

use vstd::prelude::*;

verus! {

/// Number of addressable bytes of memory.
pub const MEMORY_SIZE: usize = 4096;

/// A location in memory.
#[derive(Debug, Copy, Clone, PartialEq, Eq, Structural)]
pub struct Addr(pub u16);

/// Selects one of the registers V0 to VF.
#[derive(Debug, Copy, Clone, PartialEq, Eq, Structural)]
pub struct RegId(pub u8);

/// An 8-bit quantity.
#[derive(Debug, Copy, Clone, PartialEq, Eq, Structural)]
pub struct Val(pub u8);

impl Addr {
    /// An address is valid when it lies inside memory.
    pub open spec fn valid(self) -> bool {
        self.0 < 4096
    }
}

impl std::ops::Deref for Val {
    type Target = u8;

    /// The byte itself.
    fn deref(&self) -> (byte: &u8)
        ensures
            *byte == self.0,
    {
        &self.0
    }
}

impl RegId {
    /// A register id is valid when it names one of the sixteen registers.
    pub open spec fn valid(self) -> bool {
        self.0 < 16
    }
}

} // verus!
