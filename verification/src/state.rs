//! The machine's state as mathematical values, the effect of each
//! instruction on it, and what holds of every run.

use vstd::prelude::*;
use crate::display::{collides, drawn};
use crate::instruction::{decode, Instruction};
use crate::types::{Addr, RegId};

verus! {

/// Address of the first built-in glyph sprite.
pub const GLYPH_BASE: u16 = 0;

/// Number of bytes of one glyph sprite.
pub const GLYPH_SIZE: u16 = 5;

/// A condition that ends the current run.
#[derive(Debug, Copy, Clone, PartialEq, Eq, Structural)]
pub enum Fault {
    /// The word at `addr` stands for no instruction.
    UnknownInstruction { opcode: u16, addr: Addr },
    /// A call with sixteen return addresses already on the stack.
    StackOverflow { pc: Addr },
    /// A return with no return address on the stack.
    StackUnderflow { pc: Addr },
    /// The instruction at `pc` derived an address outside memory.
    OutOfBounds { pc: Addr },
}

/// What the machine's surroundings supply for one instruction: which of the
/// sixteen keys are down, and a byte drawn at random.
#[derive(Debug, Copy, Clone)]
pub struct Input {
    pub keys: [bool; 16],
    pub random: u8,
}

/// The lowest key at or after `from` that is down, or 16 if there is none.
pub open spec fn first_key_from(keys: Seq<bool>, from: int) -> int
    decreases 16 - from,
{
    if from >= 16 || from < 0 {
        16
    } else if keys[from] {
        from
    } else {
        first_key_from(keys, from + 1)
    }
}

impl Input {
    /// Whether key number `key` is down. Numbers above 15 name no key.
    pub open spec fn pressed(self, key: int) -> bool {
        0 <= key < 16 && self.keys@[key]
    }

    /// The lowest key that is down, or 16 if none is.
    pub open spec fn first_pressed(self) -> int {
        first_key_from(self.keys@, 0)
    }

    /// Whether key number `key` is down.
    pub fn is_pressed(&self, key: u8) -> (down: bool)
        ensures
            down == self.pressed(key as int),
    {
        key < 16 && self.keys[key as usize]
    }

    /// The lowest key that is down, if any.
    pub fn first_key(&self) -> (key: Option<u8>)
        ensures
            match key {
                Some(k) => k < 16 && k == self.first_pressed(),
                None => self.first_pressed() == 16,
            },
    {
        let mut best: u8 = 16;
        let mut k: u8 = 16;
        while k > 0
            invariant
                k <= 16,
                k <= best <= 16,
                first_key_from(self.keys@, k as int) == best,
            decreases k,
        {
            k = k - 1;
            if self.keys[k as usize] {
                best = k;
            }
        }
        if best < 16 {
            Some(best)
        } else {
            None
        }
    }
}

/// The sixteen glyph sprites for the digits 0 to F, five bytes each.
pub open spec fn glyphs() -> Seq<u8> {
    seq![
        0xF0u8, 0x90u8, 0x90u8, 0x90u8, 0xF0u8,
        0x20u8, 0x60u8, 0x20u8, 0x20u8, 0x70u8,
        0xF0u8, 0x10u8, 0xF0u8, 0x80u8, 0xF0u8,
        0xF0u8, 0x10u8, 0xF0u8, 0x10u8, 0xF0u8,
        0x90u8, 0x90u8, 0xF0u8, 0x10u8, 0x10u8,
        0xF0u8, 0x80u8, 0xF0u8, 0x10u8, 0xF0u8,
        0xF0u8, 0x80u8, 0xF0u8, 0x90u8, 0xF0u8,
        0xF0u8, 0x10u8, 0x20u8, 0x40u8, 0x40u8,
        0xF0u8, 0x90u8, 0xF0u8, 0x90u8, 0xF0u8,
        0xF0u8, 0x90u8, 0xF0u8, 0x10u8, 0xF0u8,
        0xF0u8, 0x90u8, 0xF0u8, 0x90u8, 0x90u8,
        0xE0u8, 0x90u8, 0xE0u8, 0x90u8, 0xE0u8,
        0xF0u8, 0x80u8, 0x80u8, 0x80u8, 0xF0u8,
        0xE0u8, 0x90u8, 0x90u8, 0x90u8, 0xE0u8,
        0xF0u8, 0x80u8, 0xF0u8, 0x80u8, 0xF0u8,
        0xF0u8, 0x80u8, 0xF0u8, 0x80u8, 0x80u8,
    ]
}

/// The glyph sprites as bytes.
pub fn glyph_table() -> (t: [u8; 80])
    ensures
        t@ == glyphs(),
{
    let t: [u8; 80] = [
        0xF0, 0x90, 0x90, 0x90, 0xF0,
        0x20, 0x60, 0x20, 0x20, 0x70,
        0xF0, 0x10, 0xF0, 0x80, 0xF0,
        0xF0, 0x10, 0xF0, 0x10, 0xF0,
        0x90, 0x90, 0xF0, 0x10, 0x10,
        0xF0, 0x80, 0xF0, 0x10, 0xF0,
        0xF0, 0x80, 0xF0, 0x90, 0xF0,
        0xF0, 0x10, 0x20, 0x40, 0x40,
        0xF0, 0x90, 0xF0, 0x90, 0xF0,
        0xF0, 0x90, 0xF0, 0x10, 0xF0,
        0xF0, 0x90, 0xF0, 0x90, 0x90,
        0xE0, 0x90, 0xE0, 0x90, 0xE0,
        0xF0, 0x80, 0x80, 0x80, 0xF0,
        0xE0, 0x90, 0x90, 0x90, 0xE0,
        0xF0, 0x80, 0xF0, 0x80, 0xF0,
        0xF0, 0x80, 0xF0, 0x80, 0x80,
    ];
    assert(t@ =~= glyphs());
    t
}

/// The machine's state as mathematical values.
#[verifier::ext_equal]
pub struct State {
    /// The 4096 bytes of memory.
    pub mem: Seq<u8>,
    /// The registers V0 to VF.
    pub v: Seq<u8>,
    /// The index register I.
    pub i: u16,
    /// The delay timer.
    pub delay: u8,
    /// The sound timer.
    pub sound: u8,
    /// The program counter.
    pub pc: u16,
    /// The return addresses, oldest first.
    pub stack: Seq<Addr>,
    /// The pixels, row by row.
    pub display: Seq<bool>,
}

/// Memory after the registers V0 to V`last` are stored from address `i` on.
pub open spec fn stored(mem: Seq<u8>, v: Seq<u8>, i: int, last: int) -> Seq<u8> {
    Seq::new(mem.len(), |a: int| if i <= a <= i + last { v[a - i] } else { mem[a] })
}

/// The registers after V0 to V`last` are read from address `i` on.
pub open spec fn loaded(v: Seq<u8>, mem: Seq<u8>, i: int, last: int) -> Seq<u8> {
    Seq::new(v.len(), |r: int| if r <= last { mem[i + r] } else { v[r] })
}

/// Memory after a program image is copied to the program area.
pub open spec fn with_image(mem: Seq<u8>, image: Seq<u8>) -> Seq<u8> {
    Seq::new(mem.len(), |a: int| if 0x200 <= a < 0x200 + image.len() { image[a - 0x200] } else { mem[a] })
}

impl State {
    /// The state of a machine that has just been created: memory zero but
    /// for the glyph sprites, registers and timers zero, the program counter
    /// at the start of the program area, stack empty, display blank.
    pub open spec fn initial() -> State {
        State {
            mem: Seq::new(4096, |a: int| if GLYPH_BASE <= a < GLYPH_BASE + 80 { glyphs()[a - GLYPH_BASE] } else { 0u8 }),
            v: Seq::new(16, |r: int| 0u8),
            i: 0,
            delay: 0,
            sound: 0,
            pc: 0x200,
            stack: Seq::empty(),
            display: Seq::new(2048, |p: int| false),
        }
    }

    /// Sizes and ranges that every machine state keeps: the index register,
    /// the program counter and every return address lie inside memory, and
    /// the stack holds at most sixteen addresses.
    pub open spec fn valid(self) -> bool {
        &&& self.mem.len() == 4096
        &&& self.v.len() == 16
        &&& self.i < 4096
        &&& self.pc < 4096
        &&& self.stack.len() <= 16
        &&& self.display.len() == 2048
        &&& forall|k: int| 0 <= k < self.stack.len() ==> (#[trigger] self.stack[k]).valid()
    }

    /// The program counter and every return address are even, as the
    /// addresses of instructions are when a program keeps them so.
    pub open spec fn aligned(self) -> bool {
        &&& self.pc % 2 == 0
        &&& forall|k: int| 0 <= k < self.stack.len() ==> (#[trigger] self.stack[k]).0 % 2 == 0
    }

    /// The value of register `x`.
    pub open spec fn reg(self, x: RegId) -> u8 {
        self.v[x.0 as int]
    }

    /// The state with register `x` set to `val`.
    pub open spec fn set_v(self, x: RegId, val: u8) -> State {
        State { v: self.v.update(x.0 as int, val), ..self }
    }

    /// The state with the flag register VF set to 1 or 0.
    pub open spec fn set_flag(self, flag: bool) -> State {
        State { v: self.v.update(15, if flag { 1u8 } else { 0u8 }), ..self }
    }

    /// The state with the program counter moved on by `by` bytes, or a fault
    /// if that leaves memory.
    pub open spec fn advance(self, by: int) -> Result<State, Fault> {
        if self.pc + by < 4096 {
            Ok(State { pc: (self.pc + by) as u16, ..self })
        } else {
            Err(Fault::OutOfBounds { pc: Addr(self.pc) })
        }
    }

    /// The program counter moves past the next instruction if `cond` holds,
    /// and to the next instruction otherwise.
    pub open spec fn skip_if(self, cond: bool) -> Result<State, Fault> {
        self.advance(if cond { 4 } else { 2 })
    }

    /// The effect of one instruction: the next state, or the fault that the
    /// instruction raises. Instructions other than jump, call and return
    /// move the program counter on by two; a skip whose condition holds
    /// moves it on by four; waiting for a key leaves the state as it is
    /// until a key is down. An instruction that would take the index
    /// register or the program counter out of memory, or that reads or
    /// writes outside memory, faults. The flag register VF is written after
    /// the result, so it holds the flag where both name the same register.
    /// `Sys` is not executable and stands for no change.
    pub open spec fn execute(self, instruction: Instruction, input: Input) -> Result<State, Fault> {
        let here = Addr(self.pc);
        match instruction {
            Instruction::Sys { addr } => Ok(self),
            Instruction::Cls => State { display: Seq::new(2048, |p: int| false), ..self }.advance(2),
            Instruction::Ret => if self.stack.len() == 0 {
                Err(Fault::StackUnderflow { pc: here })
            } else {
                Ok(State { pc: self.stack.last().0, stack: self.stack.drop_last(), ..self })
            },
            Instruction::Jump { addr } => Ok(State { pc: addr.0, ..self }),
            Instruction::Call { addr } => if self.stack.len() >= 16 {
                Err(Fault::StackOverflow { pc: here })
            } else {
                Ok(State { pc: addr.0, stack: self.stack.push(here), ..self })
            },
            Instruction::SeVal { x, k } => self.skip_if(self.reg(x) == k.0),
            Instruction::SneVal { x, k } => self.skip_if(self.reg(x) != k.0),
            Instruction::SeReg { x, y } => self.skip_if(self.reg(x) == self.reg(y)),
            Instruction::SneReg { x, y } => self.skip_if(self.reg(x) != self.reg(y)),
            Instruction::LdVal { x, k } => self.set_v(x, k.0).advance(2),
            Instruction::AddVal { x, k } => self.set_v(x, ((self.reg(x) + k.0) % 256) as u8).advance(2),
            Instruction::LdReg { x, y } => self.set_v(x, self.reg(y)).advance(2),
            Instruction::Or { x, y } => self.set_v(x, self.reg(x) | self.reg(y)).advance(2),
            Instruction::And { x, y } => self.set_v(x, self.reg(x) & self.reg(y)).advance(2),
            Instruction::Xor { x, y } => self.set_v(x, self.reg(x) ^ self.reg(y)).advance(2),
            Instruction::AddReg { x, y } => self.set_v(
                x,
                ((self.reg(x) + self.reg(y)) % 256) as u8,
            ).set_flag(self.reg(x) + self.reg(y) > 255).advance(2),
            Instruction::Sub { x, y } => self.set_v(
                x,
                ((self.reg(x) - self.reg(y)) % 256) as u8,
            ).set_flag(self.reg(x) >= self.reg(y)).advance(2),
            Instruction::SubN { x, y } => self.set_v(
                y,
                ((self.reg(y) - self.reg(x)) % 256) as u8,
            ).set_flag(self.reg(y) >= self.reg(x)).advance(2),
            Instruction::Shr { x } => self.set_v(x, self.reg(x) / 2).set_flag(
                self.reg(x) % 2 == 1,
            ).advance(2),
            Instruction::Shl { x } => self.set_v(x, ((self.reg(x) * 2) % 256) as u8).set_flag(
                self.reg(x) >= 128,
            ).advance(2),
            Instruction::LdI { addr } => State { i: addr.0, ..self }.advance(2),
            Instruction::JpOfs { addr } => if addr.0 + self.v[0] < 4096 {
                State { i: (addr.0 + self.v[0]) as u16, ..self }.advance(2)
            } else {
                Err(Fault::OutOfBounds { pc: here })
            },
            Instruction::Rnd { x, k } => self.set_v(x, input.random & k.0).advance(2),
            Instruction::Drw { x, y, n } => if self.i + n <= 4096 {
                let sprite = self.mem.subrange(self.i as int, self.i + n);
                let col = self.reg(x) as int;
                let row = self.reg(y) as int;
                State { display: drawn(self.display, col, row, sprite), ..self }.set_flag(
                    collides(self.display, col, row, sprite),
                ).advance(2)
            } else {
                Err(Fault::OutOfBounds { pc: here })
            },
            Instruction::Skp { x } => self.skip_if(input.pressed(self.reg(x) as int)),
            Instruction::Sknp { x } => self.skip_if(!input.pressed(self.reg(x) as int)),
            Instruction::Dt { x } => self.set_v(x, self.delay).advance(2),
            Instruction::LdKey { x } => if input.first_pressed() < 16 {
                self.set_v(x, input.first_pressed() as u8).advance(2)
            } else {
                Ok(self)
            },
            Instruction::LdDt { x } => State { delay: self.reg(x), ..self }.advance(2),
            Instruction::LdSt { x } => State { sound: self.reg(x), ..self }.advance(2),
            Instruction::AddI { x } => if self.i + self.reg(x) < 4096 {
                State { i: (self.i + self.reg(x)) as u16, ..self }.advance(2)
            } else {
                Err(Fault::OutOfBounds { pc: here })
            },
            Instruction::LdDigit { x } => State {
                i: (GLYPH_BASE + GLYPH_SIZE * self.reg(x)) as u16,
                ..self
            }.advance(2),
            Instruction::Bcd { x } => if self.i + 2 < 4096 {
                State {
                    mem: self.mem.update(self.i as int, self.reg(x) / 100).update(
                        self.i + 1,
                        self.reg(x) / 10 % 10,
                    ).update(self.i + 2, self.reg(x) % 10),
                    ..self
                }.advance(2)
            } else {
                Err(Fault::OutOfBounds { pc: here })
            },
            Instruction::Store { x } => if self.i + x.0 < 4096 {
                State { mem: stored(self.mem, self.v, self.i as int, x.0 as int), ..self }.advance(2)
            } else {
                Err(Fault::OutOfBounds { pc: here })
            },
            Instruction::Read { x } => if self.i + x.0 < 4096 {
                State { v: loaded(self.v, self.mem, self.i as int, x.0 as int), ..self }.advance(2)
            } else {
                Err(Fault::OutOfBounds { pc: here })
            },
        }
    }

    /// The opcode at the program counter: its two bytes read as a
    /// big-endian word, or a fault if they do not both lie inside memory.
    pub open spec fn opcode_at_pc(self) -> Result<u16, Fault> {
        if self.pc + 1 < 4096 {
            Ok((self.mem[self.pc as int] * 256 + self.mem[self.pc + 1]) as u16)
        } else {
            Err(Fault::OutOfBounds { pc: Addr(self.pc) })
        }
    }

    /// The effect of a decoded opcode: that of its instruction, or a fault
    /// if the opcode stands for none.
    pub open spec fn execute_opcode(self, opcode: u16, input: Input) -> Result<State, Fault> {
        match decode(opcode) {
            Some(instruction) => self.execute(instruction, input),
            None => Err(Fault::UnknownInstruction { opcode, addr: Addr(self.pc) }),
        }
    }

    /// One whole cycle: fetch the opcode at the program counter, decode it,
    /// execute it.
    pub open spec fn cycle(self, input: Input) -> Result<State, Fault> {
        match self.opcode_at_pc() {
            Ok(opcode) => self.execute_opcode(opcode, input),
            Err(fault) => Err(fault),
        }
    }
}

/// Whether `instruction` leaves it to the cycle to move the program counter
/// on by two: every instruction but jump, call, return, the skips and the
/// wait for a key.
pub open spec fn falls_through(instruction: Instruction) -> bool {
    match instruction {
        Instruction::Sys { .. }
        | Instruction::Ret
        | Instruction::Jump { .. }
        | Instruction::Call { .. }
        | Instruction::SeVal { .. }
        | Instruction::SneVal { .. }
        | Instruction::SeReg { .. }
        | Instruction::SneReg { .. }
        | Instruction::Skp { .. }
        | Instruction::Sknp { .. }
        | Instruction::LdKey { .. } => false,
        _ => true,
    }
}

/// How the result `r` and the state `after` of an operation relate to what
/// is `expected` of it: on success the state is the expected one, on a
/// fault the fault is the expected one and the state is as it was `before`.
pub open spec fn outcome(before: State, expected: Result<State, Fault>, r: Result<(), Fault>, after: State) -> bool {
    match expected {
        Ok(next) => r is Ok && after == next,
        Err(fault) => r == Err::<(), Fault>(fault) && after == before,
    }
}

/// Every instruction keeps the state valid: whatever an executable
/// instruction does, memory and register file keep their sizes, and the
/// index register, the program counter and the return addresses stay
/// inside memory.
pub proof fn execute_keeps_valid(s: State, instruction: Instruction, input: Input)
    requires
        s.valid(),
        instruction.executable(),
    ensures
        s.execute(instruction, input) matches Ok(next) ==> next.valid(),
{
}

/// The program counter stays on instruction boundaries: from an aligned
/// state every instruction leads to an aligned state, provided that a jump
/// or a call goes to an even address.
pub proof fn execute_keeps_alignment(s: State, instruction: Instruction, input: Input)
    requires
        s.valid(),
        s.aligned(),
        instruction.executable(),
        instruction matches Instruction::Jump { addr } ==> addr.0 % 2 == 0,
        instruction matches Instruction::Call { addr } ==> addr.0 % 2 == 0,
    ensures
        s.execute(instruction, input) matches Ok(next) ==> next.aligned(),
{
}

/// A call succeeds on every stack with room left, and a return right after
/// it gives back the state before the call: the program counter, the stack
/// and all the rest.
pub proof fn call_then_return(s: State, addr: Addr, input: Input)
    requires
        s.valid(),
        addr.valid(),
        s.stack.len() < 16,
    ensures
        s.execute(Instruction::Call { addr }, input) matches Ok(called) && called.pc == addr.0
            && called.stack.len() == s.stack.len() + 1 && called.execute(Instruction::Ret, input) == Ok::<
            State,
            Fault,
        >(s),
{
    let called = s.execute(Instruction::Call { addr }, input)->Ok_0;
    let back = called.execute(Instruction::Ret, input)->Ok_0;
    assert(back =~= s);
}

/// A call on a full stack and a return on an empty one fault, with the
/// program counter of the faulting instruction.
pub proof fn stack_bounds(s: State, addr: Addr, input: Input)
    requires
        s.valid(),
    ensures
        s.stack.len() == 16 ==> s.execute(Instruction::Call { addr }, input) == Err::<State, Fault>(
            Fault::StackOverflow { pc: Addr(s.pc) },
        ),
        s.stack.len() == 0 ==> s.execute(Instruction::Ret, input) == Err::<State, Fault>(
            Fault::StackUnderflow { pc: Addr(s.pc) },
        ),
{
}

/// Storing V0 to V`x` and reading them back from the same address gives
/// the registers their stored values again, whatever they held in between.
/// Registers above V`x` keep what they held before the read.
pub proof fn store_then_read(s: State, x: RegId, between: Seq<u8>, input: Input)
    requires
        s.valid(),
        x.valid(),
        between.len() == 16,
        s.i + x.0 < 4096,
        s.pc + 4 < 4096,
    ensures
        s.execute(Instruction::Store { x }, input) matches Ok(stored_state) && (State {
            v: between,
            ..stored_state
        }).execute(Instruction::Read { x }, input) matches Ok(read_state) && read_state.v.len() == 16
            && (forall|r: int| 0 <= r <= x.0 ==> read_state.v[r] == s.v[r]) && (forall|r: int|
            x.0 < r < 16 ==> read_state.v[r] == between[r]),
{
}

} // verus!
