//! A general-purpose register and the program counter.

use vstd::prelude::*;
use crate::types::{Addr, Val};

verus! {

/// Address at which a program image starts, and the program counter's
/// first value.
pub const PROGRAM_START: u16 = 0x200;

/// The program counter. Its view is the address it holds.
pub struct Pc(Addr);

impl View for Pc {
    type V = u16;

    closed spec fn view(&self) -> u16 {
        self.0.0
    }
}

impl Pc {
    /// A program counter at the start of the program area.
    pub fn new() -> (pc: Pc)
        ensures
            pc@ == 0x200,
    {
        Pc(Addr(PROGRAM_START))
    }

    /// The current address.
    pub fn get(&self) -> (a: Addr)
        ensures
            a.0 == self@,
    {
        self.0
    }

    /// Moves on to the next instruction.
    pub fn increment(&mut self)
        requires
            old(self)@ + 2 <= u16::MAX,
        ensures
            final(self)@ == old(self)@ + 2,
    {
        self.0 = Addr(self.0.0 + 2);
    }

    /// Moves on by one instruction if `cond` holds, and stays otherwise.
    pub fn increment_cond(&mut self, cond: bool)
        requires
            cond ==> old(self)@ + 2 <= u16::MAX,
        ensures
            final(self)@ == old(self)@ + (if cond { 2int } else { 0int }),
    {
        if cond {
            self.0 = Addr(self.0.0 + 2);
        }
    }

    /// Continues execution at `addr`.
    pub fn jump(&mut self, addr: Addr)
        ensures
            final(self)@ == addr.0,
    {
        self.0 = addr;
    }
}

/// One of the registers V0 to VF. Its view is the byte it holds.
#[derive(Copy, Clone)]
pub struct Reg(Val);

impl View for Reg {
    type V = u8;

    closed spec fn view(&self) -> u8 {
        self.0.0
    }
}

impl std::ops::Deref for Reg {
    type Target = Val;

    /// The value held.
    fn deref(&self) -> (v: &Val)
        ensures
            v.0 == self@,
    {
        &self.0
    }
}

impl Reg {
    /// A register that holds zero.
    pub fn new() -> (r: Reg)
        ensures
            r@ == 0,
    {
        Reg(Val(0))
    }

    /// The value held.
    pub fn get(&self) -> (v: Val)
        ensures
            v.0 == self@,
    {
        self.0
    }

    /// Replaces the value held.
    pub fn set(&mut self, k: Val)
        ensures
            final(self)@ == k.0,
    {
        self.0 = k;
    }

    /// Adds `k` modulo 256. Returns whether the sum left the 8-bit range.
    pub fn add(&mut self, k: Val) -> (carry: bool)
        ensures
            final(self)@ == (old(self)@ + k.0) % 256,
            carry == (old(self)@ + k.0 > 255),
    {
        let sum: u16 = self.0.0 as u16 + k.0 as u16;
        self.0 = Val((sum % 256) as u8);
        sum > 255
    }

    /// Subtracts `k` modulo 256. Returns whether the subtraction had to
    /// borrow, that is whether `k` was larger than the value held.
    pub fn sub(&mut self, k: Val) -> (borrow: bool)
        ensures
            final(self)@ == (old(self)@ - k.0) % 256,
            borrow == (old(self)@ < k.0),
    {
        let a: u8 = self.0.0;
        if a >= k.0 {
            self.0 = Val(a - k.0);
            false
        } else {
            self.0 = Val((256 - (k.0 - a) as u16) as u8);
            true
        }
    }

    /// Shifts the value right by one bit. Returns the bit shifted out, the
    /// least significant one.
    pub fn shr(&mut self) -> (out: bool)
        ensures
            final(self)@ == old(self)@ / 2,
            out == (old(self)@ % 2 == 1),
    {
        let a: u8 = self.0.0;
        self.0 = Val(a / 2);
        a % 2 == 1
    }

    /// Shifts the value left by one bit, modulo 256. Returns the bit shifted
    /// out, the most significant one.
    pub fn shl(&mut self) -> (out: bool)
        ensures
            final(self)@ == (old(self)@ * 2) % 256,
            out == (old(self)@ >= 128),
    {
        let a: u8 = self.0.0;
        self.0 = Val((a % 128) * 2);
        a >= 128
    }
}

} // verus!
