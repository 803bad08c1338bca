//! The machine: memory, registers, timers, program counter, call stack and
//! display, and the fetch, decode, execute cycle that drives them.

use vstd::prelude::*;
use vstd::slice::slice_subrange;
use byteorder::{BigEndian, ByteOrder};
use crate::display::Display;
use crate::instruction::Instruction;
use crate::register::{Pc, Reg, PROGRAM_START};
use crate::stack::Stack;
use crate::state::{
    falls_through, glyph_table, glyphs, loaded, outcome, stored, with_image, Fault, Input, State,
    GLYPH_BASE, GLYPH_SIZE,
};
use crate::types::{Addr, RegId, Val, MEMORY_SIZE};

verus! {

/// The machine. Its view is its state as mathematical values.
pub struct Chip8 {
    mem: [u8; 4096],
    register_v: [Reg; 16],
    register_i: Addr,
    delay: u8,
    sound: u8,
    pc: Pc,
    stack: Stack,
    display: Display,
}

impl View for Chip8 {
    type V = State;

    closed spec fn view(&self) -> State {
        State {
            mem: self.mem@,
            v: Seq::new(16, |r: int| self.register_v@[r]@),
            i: self.register_i.0,
            delay: self.delay,
            sound: self.sound,
            pc: self.pc@,
            stack: self.stack@,
            display: self.display@,
        }
    }
}

/// Reads the first two bytes of `buf` as a big-endian word by
/// `byteorder::BigEndian::read_u16`, which panics on a shorter buffer and
/// otherwise returns 256 times the first byte plus the second.
#[verifier::external_body]
fn read_word(buf: &[u8]) -> (word: u16)
    requires
        buf@.len() >= 2,
    ensures
        word == buf@[0] * 256 + buf@[1],
{
    BigEndian::read_u16(buf)
}

impl Chip8 {
    /// The machine's parts are in their ranges.
    pub closed spec fn wf(&self) -> bool {
        self.stack.wf() && self@.valid()
    }

    /// The state of a well-formed machine is valid.
    pub proof fn lemma_valid(&self)
        requires
            self.wf(),
        ensures
            self@.valid(),
    {
    }

    /// A machine in its initial state.
    pub fn new() -> (m: Chip8)
        ensures
            m.wf(),
            m@ == State::initial(),
    {
        let glyph = glyph_table();
        let mut mem = [0u8; 4096];
        let mut k: usize = 0;
        while k < 80
            invariant
                k <= 80,
                glyph@ == glyphs(),
                forall|a: int| 0 <= a < 4096 ==> #[trigger] mem@[a] == (if a < k { glyphs()[a] } else { 0u8 }),
            decreases 80 - k,
        {
            mem[GLYPH_BASE as usize + k] = glyph[k];
            k = k + 1;
        }
        let m = Chip8 {
            mem,
            register_v: [Reg::new(); 16],
            register_i: Addr(0),
            delay: 0,
            sound: 0,
            pc: Pc::new(),
            stack: Stack::new(),
            display: Display::new(),
        };
        proof {
            m.display.lemma_len();
            assert(m@.mem =~= State::initial().mem);
            assert(m@.v =~= State::initial().v);
        }
        m
    }

    /// Register `id`.
    pub fn reg(&self, id: RegId) -> (r: &Reg)
        requires
            id.valid(),
        ensures
            r@ == self@.reg(id),
    {
        &self.register_v[id.0 as usize]
    }

    /// Register `id`, to be changed in place.
    pub fn reg_mut(&mut self, id: RegId) -> (r: &mut Reg)
        requires
            id.valid(),
        ensures
            r@ == old(self)@.reg(id),
            final(self)@ =~= old(self)@.set_v(id, final(r)@),
            final(self).wf() == old(self).wf(),
    {
        &mut self.register_v[id.0 as usize]
    }

    /// Sets the flag register VF to 1 if `carry` holds, and to 0 otherwise.
    pub fn set_carry(&mut self, carry: bool)
        ensures
            final(self)@ == old(self)@.set_flag(carry),
            final(self).wf() == old(self).wf(),
    {
        self.register_v[15].set(Val(if carry { 1 } else { 0 }));
        assert(self@.v =~= old(self)@.set_flag(carry).v);
    }

    /// The program counter.
    pub fn pc(&self) -> (a: Addr)
        ensures
            a.0 == self@.pc,
    {
        self.pc.get()
    }

    /// The index register I.
    pub fn index(&self) -> (a: Addr)
        ensures
            a.0 == self@.i,
    {
        self.register_i
    }

    /// The byte of memory at `addr`.
    pub fn byte_at(&self, addr: Addr) -> (b: u8)
        requires
            addr.valid(),
        ensures
            b == self@.mem[addr.0 as int],
    {
        self.mem[addr.0 as usize]
    }

    /// The display, to be read.
    pub fn display(&self) -> (d: &Display)
        ensures
            d@ == self@.display,
    {
        &self.display
    }

    /// Number of return addresses on the stack.
    pub fn stack_depth(&self) -> (n: usize)
        requires
            self.wf(),
        ensures
            n == self@.stack.len(),
    {
        self.stack.depth()
    }

    /// The delay timer.
    pub fn delay_timer(&self) -> (t: u8)
        ensures
            t == self@.delay,
    {
        self.delay
    }

    /// The sound timer.
    pub fn sound_timer(&self) -> (t: u8)
        ensures
            t == self@.sound,
    {
        self.sound
    }

    /// Sets the delay timer.
    pub fn set_delay_timer(&mut self, t: u8)
        ensures
            final(self).wf() == old(self).wf(),
            final(self)@ == (State { delay: t, ..old(self)@ }),
    {
        self.delay = t;
        assert(self@.v =~= old(self)@.v);
    }

    /// Sets the sound timer.
    pub fn set_sound_timer(&mut self, t: u8)
        ensures
            final(self).wf() == old(self).wf(),
            final(self)@ == (State { sound: t, ..old(self)@ }),
    {
        self.sound = t;
        assert(self@.v =~= old(self)@.v);
    }

    /// Counts each timer that is not zero down by one.
    pub fn tick_timers(&mut self)
        ensures
            final(self).wf() == old(self).wf(),
            final(self)@ == (State {
                delay: if old(self)@.delay > 0 { (old(self)@.delay - 1) as u8 } else { 0u8 },
                sound: if old(self)@.sound > 0 { (old(self)@.sound - 1) as u8 } else { 0u8 },
                ..old(self)@
            }),
    {
        if self.delay > 0 {
            self.delay = self.delay - 1;
        }
        if self.sound > 0 {
            self.sound = self.sound - 1;
        }
        assert(self@.v =~= old(self)@.v);
    }

    /// Copies a program image into memory from the start of the program
    /// area on. An image that does not fit is refused and nothing changes.
    pub fn load(&mut self, image: &[u8]) -> (r: Result<(), Fault>)
        requires
            old(self).wf(),
        ensures
            final(self).wf(),
            outcome(
                old(self)@,
                if image@.len() <= 4096 - 0x200 {
                    Ok(State { mem: with_image(old(self)@.mem, image@), ..old(self)@ })
                } else {
                    Err(Fault::OutOfBounds { pc: Addr(old(self)@.pc) })
                },
                r,
                final(self)@,
            ),
    {
        if image.len() > MEMORY_SIZE - PROGRAM_START as usize {
            return Err(Fault::OutOfBounds { pc: self.pc.get() });
        }
        let mut k: usize = 0;
        while k < image.len()
            invariant
                k <= image@.len() <= 4096 - 0x200,
                self.wf(),
                self@ =~= (State {
                    mem: with_image(old(self)@.mem, image@.subrange(0, k as int)),
                    ..old(self)@
                }),
            decreases image.len() - k,
        {
            self.mem[PROGRAM_START as usize + k] = image[k];
            k = k + 1;
        }
        assert(image@.subrange(0, k as int) =~= image@);
        Ok(())
    }

    /// Reads the opcode at the program counter.
    pub fn fetch(&self) -> (r: Result<u16, Fault>)
        requires
            self.wf(),
        ensures
            r == self@.opcode_at_pc(),
    {
        let here = self.pc.get();
        if here.0 >= 4095 {
            return Err(Fault::OutOfBounds { pc: here });
        }
        let at: usize = here.0 as usize;
        let word = read_word(slice_subrange(self.mem.as_slice(), at, at + 2));
        Ok(word)
    }

    fn value(&self, id: RegId) -> (v: u8)
        requires
            id.valid(),
        ensures
            v == self@.reg(id),
    {
        self.reg(id).get().0
    }

    fn skip(&mut self, cond: bool) -> (r: Result<(), Fault>)
        requires
            old(self).wf(),
        ensures
            final(self).wf(),
            outcome(old(self)@, old(self)@.skip_if(cond), r, final(self)@),
    {
        let here = self.pc.get();
        let by: u16 = if cond { 4 } else { 2 };
        if here.0 + by >= 4096 {
            return Err(Fault::OutOfBounds { pc: here });
        }
        self.pc.increment_cond(cond);
        self.pc.increment();
        assert(self@ =~= old(self)@.skip_if(cond)->Ok_0);
        Ok(())
    }

    fn store_registers(&mut self, last: RegId)
        requires
            old(self).wf(),
            last.valid(),
            old(self)@.i + last.0 < 4096,
        ensures
            final(self).wf(),
            final(self)@ == (State {
                mem: stored(old(self)@.mem, old(self)@.v, old(self)@.i as int, last.0 as int),
                ..old(self)@
            }),
    {
        let base: usize = self.register_i.0 as usize;
        let mut k: u8 = 0;
        while k <= last.0
            invariant
                k <= last.0 + 1,
                last.valid(),
                base == old(self)@.i,
                base + last.0 < 4096,
                self.wf(),
                self@ =~= (State {
                    mem: stored(old(self)@.mem, old(self)@.v, base as int, k - 1),
                    ..old(self)@
                }),
            decreases last.0 + 1 - k,
        {
            let val = self.value(RegId(k));
            self.mem[base + k as usize] = val;
            k = k + 1;
        }
    }

    fn read_registers(&mut self, last: RegId)
        requires
            old(self).wf(),
            last.valid(),
            old(self)@.i + last.0 < 4096,
        ensures
            final(self).wf(),
            final(self)@ == (State {
                v: loaded(old(self)@.v, old(self)@.mem, old(self)@.i as int, last.0 as int),
                ..old(self)@
            }),
    {
        let base: usize = self.register_i.0 as usize;
        let mut k: u8 = 0;
        while k <= last.0
            invariant
                k <= last.0 + 1,
                last.valid(),
                base == old(self)@.i,
                base + last.0 < 4096,
                self.wf(),
                self@ =~= (State {
                    v: loaded(old(self)@.v, old(self)@.mem, base as int, k - 1),
                    ..old(self)@
                }),
            decreases last.0 + 1 - k,
        {
            let val = self.mem[base + k as usize];
            self.reg_mut(RegId(k)).set(Val(val));
            k = k + 1;
        }
    }

    /// Executes one decoded instruction. On success the machine is in the
    /// state that [`State::execute`] gives. On a fault the fault is returned
    /// and the machine is left exactly as it was.
    pub fn exec(&mut self, instruction: Instruction, input: &Input) -> (r: Result<(), Fault>)
        requires
            old(self).wf(),
            instruction.executable(),
        ensures
            final(self).wf(),
            outcome(old(self)@, old(self)@.execute(instruction, *input), r, final(self)@),
    {
        let here = self.pc.get();
        if Self::moves_on(&instruction) && here.0 >= 4094 {
            return Err(Fault::OutOfBounds { pc: here });
        }
        match instruction {
            Instruction::Sys { addr } => {
                return Ok(());
            },
            Instruction::Cls => self.display.clear(),
            Instruction::Ret => {
                match self.stack.pop() {
                    Ok(addr) => {
                        self.pc.jump(addr);
                        assert(self@ =~= old(self)@.execute(instruction, *input)->Ok_0);
                        return Ok(());
                    },
                    Err(_) => {
                        return Err(Fault::StackUnderflow { pc: here });
                    },
                }
            },
            Instruction::Jump { addr } => {
                self.pc.jump(addr);
                assert(self@ =~= old(self)@.execute(instruction, *input)->Ok_0);
                return Ok(());
            },
            Instruction::Call { addr } => {
                match self.stack.push(here) {
                    Ok(_) => {
                        self.pc.jump(addr);
                        assert(self@ =~= old(self)@.execute(instruction, *input)->Ok_0);
                        return Ok(());
                    },
                    Err(_) => {
                        return Err(Fault::StackOverflow { pc: here });
                    },
                }
            },
            Instruction::SeVal { x, k } => {
                let cond = self.value(x) == k.0;
                return self.skip(cond);
            },
            Instruction::SneVal { x, k } => {
                let cond = self.value(x) != k.0;
                return self.skip(cond);
            },
            Instruction::SeReg { x, y } => {
                let cond = self.value(x) == self.value(y);
                return self.skip(cond);
            },
            Instruction::SneReg { x, y } => {
                let cond = self.value(x) != self.value(y);
                return self.skip(cond);
            },
            Instruction::LdVal { x, k } => self.reg_mut(x).set(k),
            Instruction::AddVal { x, k } => {
                let _carry = self.reg_mut(x).add(k);
            },
            Instruction::LdReg { x, y } => {
                let y_val = self.reg(y).get();
                self.reg_mut(x).set(y_val);
            },
            Instruction::Or { x, y } => {
                let (x_val, y_val) = (self.value(x), self.value(y));
                self.reg_mut(x).set(Val(x_val | y_val));
            },
            Instruction::And { x, y } => {
                let (x_val, y_val) = (self.value(x), self.value(y));
                self.reg_mut(x).set(Val(x_val & y_val));
            },
            Instruction::Xor { x, y } => {
                let (x_val, y_val) = (self.value(x), self.value(y));
                self.reg_mut(x).set(Val(x_val ^ y_val));
            },
            Instruction::AddReg { x, y } => {
                let y_val = self.reg(y).get();
                let carry = self.reg_mut(x).add(y_val);
                self.set_carry(carry);
            },
            Instruction::Sub { x, y } => {
                let y_val = self.reg(y).get();
                let borrow = self.reg_mut(x).sub(y_val);
                self.set_carry(!borrow);
            },
            Instruction::SubN { x, y } => {
                let x_val = self.reg(x).get();
                let borrow = self.reg_mut(y).sub(x_val);
                self.set_carry(!borrow);
            },
            Instruction::Shr { x } => {
                let out = self.reg_mut(x).shr();
                self.set_carry(out);
            },
            Instruction::Shl { x } => {
                let out = self.reg_mut(x).shl();
                self.set_carry(out);
            },
            Instruction::LdI { addr } => {
                self.register_i = addr;
            },
            Instruction::JpOfs { addr } => {
                let target: u16 = addr.0 + self.value(RegId(0)) as u16;
                if target >= 4096 {
                    return Err(Fault::OutOfBounds { pc: here });
                }
                self.register_i = Addr(target);
            },
            Instruction::Rnd { x, k } => self.reg_mut(x).set(Val(input.random & k.0)),
            Instruction::Drw { x, y, n } => {
                let from: usize = self.register_i.0 as usize;
                if from + n as usize > 4096 {
                    return Err(Fault::OutOfBounds { pc: here });
                }
                let (x_val, y_val) = (self.reg(x).get(), self.reg(y).get());
                let sprite = slice_subrange(self.mem.as_slice(), from, from + n as usize);
                let collision = self.display.draw(x_val, y_val, sprite);
                self.set_carry(collision);
            },
            Instruction::Skp { x } => {
                let cond = input.is_pressed(self.value(x));
                return self.skip(cond);
            },
            Instruction::Sknp { x } => {
                let cond = !input.is_pressed(self.value(x));
                return self.skip(cond);
            },
            Instruction::Dt { x } => {
                let val = Val(self.delay);
                self.reg_mut(x).set(val);
            },
            Instruction::LdKey { x } => {
                match input.first_key() {
                    Some(key) => {
                        if here.0 >= 4094 {
                            return Err(Fault::OutOfBounds { pc: here });
                        }
                        self.reg_mut(x).set(Val(key));
                    },
                    None => {
                        return Ok(());
                    },
                }
            },
            Instruction::LdDt { x } => {
                self.delay = self.value(x);
            },
            Instruction::LdSt { x } => {
                self.sound = self.value(x);
            },
            Instruction::AddI { x } => {
                let target: u16 = self.register_i.0 + self.value(x) as u16;
                if target >= 4096 {
                    return Err(Fault::OutOfBounds { pc: here });
                }
                self.register_i = Addr(target);
            },
            Instruction::LdDigit { x } => {
                self.register_i = Addr(GLYPH_BASE + GLYPH_SIZE * self.value(x) as u16);
            },
            Instruction::Bcd { x } => {
                let at: usize = self.register_i.0 as usize;
                if at + 2 >= 4096 {
                    return Err(Fault::OutOfBounds { pc: here });
                }
                let x_val = self.value(x);
                self.mem[at] = x_val / 100;
                self.mem[at + 1] = x_val / 10 % 10;
                self.mem[at + 2] = x_val % 10;
            },
            Instruction::Store { x } => {
                if self.register_i.0 + x.0 as u16 >= 4096 {
                    return Err(Fault::OutOfBounds { pc: here });
                }
                self.store_registers(x);
            },
            Instruction::Read { x } => {
                if self.register_i.0 + x.0 as u16 >= 4096 {
                    return Err(Fault::OutOfBounds { pc: here });
                }
                self.read_registers(x);
            },
        }
        self.pc.increment();
        assert(self@ =~= old(self)@.execute(instruction, *input)->Ok_0);
        Ok(())
    }

    fn moves_on(instruction: &Instruction) -> (b: bool)
        ensures
            b == falls_through(*instruction),
    {
        match instruction {
            Instruction::Sys { .. }
            | Instruction::Ret
            | Instruction::Jump { .. }
            | Instruction::Call { .. }
            | Instruction::SeVal { .. }
            | Instruction::SneVal { .. }
            | Instruction::SeReg { .. }
            | Instruction::SneReg { .. }
            | Instruction::Skp { .. }
            | Instruction::Sknp { .. }
            | Instruction::LdKey { .. } => false,
            _ => true,
        }
    }

    /// Executes the instruction that `opcode` stands for, or reports that it
    /// stands for none.
    pub fn exec_opcode(&mut self, opcode: u16, input: &Input) -> (r: Result<(), Fault>)
        requires
            old(self).wf(),
        ensures
            final(self).wf(),
            outcome(old(self)@, old(self)@.execute_opcode(opcode, *input), r, final(self)@),
    {
        match Instruction::interpret(opcode) {
            Some(instruction) => self.exec(instruction, input),
            None => Err(Fault::UnknownInstruction { opcode, addr: self.pc.get() }),
        }
    }

    /// Runs one cycle: fetches the opcode at the program counter, decodes
    /// and executes it.
    pub fn step(&mut self, input: &Input) -> (r: Result<(), Fault>)
        requires
            old(self).wf(),
        ensures
            final(self).wf(),
            outcome(old(self)@, old(self)@.cycle(*input), r, final(self)@),
    {
        match self.fetch() {
            Ok(opcode) => self.exec_opcode(opcode, input),
            Err(fault) => Err(fault),
        }
    }
}

} // verus!
