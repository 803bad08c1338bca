//! The instruction set and its decoder.

use vstd::prelude::*;
use crate::types::{Addr, RegId, Val};

verus! {

/// One decoded instruction with its operands.
#[derive(Debug, Copy, Clone, PartialEq, Eq, Structural)]
pub enum Instruction {
    Sys { addr: Addr },
    Cls,
    Ret,
    Jump { addr: Addr },
    Call { addr: Addr },
    SeVal { x: RegId, k: Val },
    SneVal { x: RegId, k: Val },
    SeReg { x: RegId, y: RegId },
    LdVal { x: RegId, k: Val },
    AddVal { x: RegId, k: Val },
    LdReg { x: RegId, y: RegId },
    Or { x: RegId, y: RegId },
    And { x: RegId, y: RegId },
    Xor { x: RegId, y: RegId },
    AddReg { x: RegId, y: RegId },
    Sub { x: RegId, y: RegId },
    Shr { x: RegId },
    SubN { x: RegId, y: RegId },
    Shl { x: RegId },
    SneReg { x: RegId, y: RegId },
    LdI { addr: Addr },
    JpOfs { addr: Addr },
    Rnd { x: RegId, k: Val },
    Drw { x: RegId, y: RegId, n: u8 },
    Skp { x: RegId },
    Sknp { x: RegId },
    Dt { x: RegId },
    LdKey { x: RegId },
    LdDt { x: RegId },
    LdSt { x: RegId },
    AddI { x: RegId },
    LdDigit { x: RegId },
    Bcd { x: RegId },
    Store { x: RegId },
    Read { x: RegId },
}

/// The 4-bit field number `k` of an opcode, field 0 being the most
/// significant.
pub open spec fn nibble(x: u16, k: int) -> u8 {
    if k == 0 {
        (x / 0x1000) as u8
    } else if k == 1 {
        (x / 0x100 % 0x10) as u8
    } else if k == 2 {
        (x / 0x10 % 0x10) as u8
    } else {
        (x % 0x10) as u8
    }
}

/// The low byte of an opcode.
pub open spec fn low_byte(x: u16) -> u8 {
    (x % 0x100) as u8
}

/// The four 4-bit fields of an opcode, most significant first.
pub open spec fn nibbles_of(x: u16) -> Seq<u8> {
    seq![nibble(x, 0), nibble(x, 1), nibble(x, 2), nibble(x, 3)]
}

/// The two bytes of an opcode, most significant first.
pub open spec fn bytes_of(x: u16) -> Seq<u8> {
    seq![(x / 0x100) as u8, low_byte(x)]
}

/// The opcode table: the instruction that an opcode stands for, if any.
pub open spec fn decode(opcode: u16) -> Option<Instruction> {
    let x = RegId(nibble(opcode, 1));
    let y = RegId(nibble(opcode, 2));
    let n = nibble(opcode, 3);
    let k = Val(low_byte(opcode));
    let addr = Addr(opcode % 0x1000);
    match nibble(opcode, 0) {
        0x0 => if opcode == 0x00E0 {
            Some(Instruction::Cls)
        } else if opcode == 0x00EE {
            Some(Instruction::Ret)
        } else {
            None
        },
        0x1 => Some(Instruction::Jump { addr }),
        0x2 => Some(Instruction::Call { addr }),
        0x3 => Some(Instruction::SeVal { x, k }),
        0x4 => Some(Instruction::SneVal { x, k }),
        0x5 => if n == 0 {
            Some(Instruction::SeReg { x, y })
        } else {
            None
        },
        0x6 => Some(Instruction::LdVal { x, k }),
        0x7 => Some(Instruction::AddVal { x, k }),
        0x8 => match n {
            0x0 => Some(Instruction::LdReg { x, y }),
            0x1 => Some(Instruction::Or { x, y }),
            0x2 => Some(Instruction::And { x, y }),
            0x3 => Some(Instruction::Xor { x, y }),
            0x4 => Some(Instruction::AddReg { x, y }),
            0x5 => Some(Instruction::Sub { x, y }),
            0x6 => Some(Instruction::Shr { x }),
            0x7 => Some(Instruction::SubN { x, y }),
            0xE => Some(Instruction::Shl { x }),
            _ => None,
        },
        0x9 => if n == 0 {
            Some(Instruction::SneReg { x, y })
        } else {
            None
        },
        0xA => Some(Instruction::LdI { addr }),
        0xB => Some(Instruction::JpOfs { addr }),
        0xC => Some(Instruction::Rnd { x, k }),
        0xD => Some(Instruction::Drw { x, y, n: n }),
        0xE => match k.0 {
            0x9E => Some(Instruction::Skp { x }),
            0xA1 => Some(Instruction::Sknp { x }),
            _ => None,
        },
        _ => match k.0 {
            0x07 => Some(Instruction::Dt { x }),
            0x0A => Some(Instruction::LdKey { x }),
            0x15 => Some(Instruction::LdDt { x }),
            0x18 => Some(Instruction::LdSt { x }),
            0x1E => Some(Instruction::AddI { x }),
            0x29 => Some(Instruction::LdDigit { x }),
            0x33 => Some(Instruction::Bcd { x }),
            0x55 => Some(Instruction::Store { x }),
            0x65 => Some(Instruction::Read { x }),
            _ => None,
        },
    }
}

impl Instruction {
    /// The operands lie in their ranges: addresses inside memory, register
    /// ids below sixteen, a sprite height below sixteen.
    pub open spec fn operands_valid(self) -> bool {
        match self {
            Instruction::Sys { addr } => addr.valid(),
            Instruction::Cls => true,
            Instruction::Ret => true,
            Instruction::Jump { addr } => addr.valid(),
            Instruction::Call { addr } => addr.valid(),
            Instruction::SeVal { x, k } => x.valid(),
            Instruction::SneVal { x, k } => x.valid(),
            Instruction::SeReg { x, y } => x.valid() && y.valid(),
            Instruction::LdVal { x, k } => x.valid(),
            Instruction::AddVal { x, k } => x.valid(),
            Instruction::LdReg { x, y } => x.valid() && y.valid(),
            Instruction::Or { x, y } => x.valid() && y.valid(),
            Instruction::And { x, y } => x.valid() && y.valid(),
            Instruction::Xor { x, y } => x.valid() && y.valid(),
            Instruction::AddReg { x, y } => x.valid() && y.valid(),
            Instruction::Sub { x, y } => x.valid() && y.valid(),
            Instruction::Shr { x } => x.valid(),
            Instruction::SubN { x, y } => x.valid() && y.valid(),
            Instruction::Shl { x } => x.valid(),
            Instruction::SneReg { x, y } => x.valid() && y.valid(),
            Instruction::LdI { addr } => addr.valid(),
            Instruction::JpOfs { addr } => addr.valid(),
            Instruction::Rnd { x, k } => x.valid(),
            Instruction::Drw { x, y, n } => x.valid() && y.valid() && n < 16,
            Instruction::Skp { x } => x.valid(),
            Instruction::Sknp { x } => x.valid(),
            Instruction::Dt { x } => x.valid(),
            Instruction::LdKey { x } => x.valid(),
            Instruction::LdDt { x } => x.valid(),
            Instruction::LdSt { x } => x.valid(),
            Instruction::AddI { x } => x.valid(),
            Instruction::LdDigit { x } => x.valid(),
            Instruction::Bcd { x } => x.valid(),
            Instruction::Store { x } => x.valid(),
            Instruction::Read { x } => x.valid(),
        }
    }

    /// An instruction that the machine can execute: its operands are valid
    /// and it is not a call into host machine code.
    pub open spec fn executable(self) -> bool {
        self.operands_valid() && !(self is Sys)
    }

    /// The opcode that encodes this instruction. The two shifts carry no
    /// second register, so that field of their opcode is encoded as zero.
    pub open spec fn opcode(self) -> int {
        match self {
            Instruction::Sys { addr } => addr.0 as int,
            Instruction::Cls => 0x00E0,
            Instruction::Ret => 0x00EE,
            Instruction::Jump { addr } => 0x1000 + addr.0,
            Instruction::Call { addr } => 0x2000 + addr.0,
            Instruction::SeVal { x, k } => 0x3000 + x.0 * 0x100 + k.0,
            Instruction::SneVal { x, k } => 0x4000 + x.0 * 0x100 + k.0,
            Instruction::SeReg { x, y } => 0x5000 + x.0 * 0x100 + y.0 * 0x10,
            Instruction::LdVal { x, k } => 0x6000 + x.0 * 0x100 + k.0,
            Instruction::AddVal { x, k } => 0x7000 + x.0 * 0x100 + k.0,
            Instruction::LdReg { x, y } => 0x8000 + x.0 * 0x100 + y.0 * 0x10,
            Instruction::Or { x, y } => 0x8001 + x.0 * 0x100 + y.0 * 0x10,
            Instruction::And { x, y } => 0x8002 + x.0 * 0x100 + y.0 * 0x10,
            Instruction::Xor { x, y } => 0x8003 + x.0 * 0x100 + y.0 * 0x10,
            Instruction::AddReg { x, y } => 0x8004 + x.0 * 0x100 + y.0 * 0x10,
            Instruction::Sub { x, y } => 0x8005 + x.0 * 0x100 + y.0 * 0x10,
            Instruction::Shr { x } => 0x8006 + x.0 * 0x100,
            Instruction::SubN { x, y } => 0x8007 + x.0 * 0x100 + y.0 * 0x10,
            Instruction::Shl { x } => 0x800E + x.0 * 0x100,
            Instruction::SneReg { x, y } => 0x9000 + x.0 * 0x100 + y.0 * 0x10,
            Instruction::LdI { addr } => 0xA000 + addr.0,
            Instruction::JpOfs { addr } => 0xB000 + addr.0,
            Instruction::Rnd { x, k } => 0xC000 + x.0 * 0x100 + k.0,
            Instruction::Drw { x, y, n } => 0xD000 + x.0 * 0x100 + y.0 * 0x10 + n,
            Instruction::Skp { x } => 0xE09E + x.0 * 0x100,
            Instruction::Sknp { x } => 0xE0A1 + x.0 * 0x100,
            Instruction::Dt { x } => 0xF007 + x.0 * 0x100,
            Instruction::LdKey { x } => 0xF00A + x.0 * 0x100,
            Instruction::LdDt { x } => 0xF015 + x.0 * 0x100,
            Instruction::LdSt { x } => 0xF018 + x.0 * 0x100,
            Instruction::AddI { x } => 0xF01E + x.0 * 0x100,
            Instruction::LdDigit { x } => 0xF029 + x.0 * 0x100,
            Instruction::Bcd { x } => 0xF033 + x.0 * 0x100,
            Instruction::Store { x } => 0xF055 + x.0 * 0x100,
            Instruction::Read { x } => 0xF065 + x.0 * 0x100,
        }
    }

    /// Decodes one opcode. Returns the instruction that the opcode table
    /// gives for it, and `None` for an opcode that the table does not list.
    pub fn interpret(opcode: u16) -> (r: Option<Instruction>)
        ensures
            r == decode(opcode),
            r matches Some(i) ==> i.executable(),
    {
        let b = bytes(opcode);
        let n = nibbles(opcode);
        let tail: u16 = opcode % 0x1000;
        let x = RegId(n[1]);
        let y = RegId(n[2]);
        let k = Val(b[1]);
        let addr = Addr(tail);
        let inst = match n[0] {
            0x0 => match tail {
                0x0E0 => Instruction::Cls,
                0x0EE => Instruction::Ret,
                _ => { return None; },
            },
            0x1 => Instruction::Jump { addr },
            0x2 => Instruction::Call { addr },
            0x3 => Instruction::SeVal { x, k },
            0x4 => Instruction::SneVal { x, k },
            0x5 => match n[3] {
                0 => Instruction::SeReg { x, y },
                _ => { return None; },
            },
            0x6 => Instruction::LdVal { x, k },
            0x7 => Instruction::AddVal { x, k },
            0x8 => match n[3] {
                0x0 => Instruction::LdReg { x, y },
                0x1 => Instruction::Or { x, y },
                0x2 => Instruction::And { x, y },
                0x3 => Instruction::Xor { x, y },
                0x4 => Instruction::AddReg { x, y },
                0x5 => Instruction::Sub { x, y },
                0x6 => Instruction::Shr { x },
                0x7 => Instruction::SubN { x, y },
                0xE => Instruction::Shl { x },
                _ => { return None; },
            },
            0x9 => match n[3] {
                0 => Instruction::SneReg { x, y },
                _ => { return None; },
            },
            0xA => Instruction::LdI { addr },
            0xB => Instruction::JpOfs { addr },
            0xC => Instruction::Rnd { x, k },
            0xD => Instruction::Drw { x, y, n: n[3] },
            0xE => match b[1] {
                0x9E => Instruction::Skp { x },
                0xA1 => Instruction::Sknp { x },
                _ => { return None; },
            },
            _ => match b[1] {
                0x07 => Instruction::Dt { x },
                0x0A => Instruction::LdKey { x },
                0x15 => Instruction::LdDt { x },
                0x18 => Instruction::LdSt { x },
                0x1E => Instruction::AddI { x },
                0x29 => Instruction::LdDigit { x },
                0x33 => Instruction::Bcd { x },
                0x55 => Instruction::Store { x },
                0x65 => Instruction::Read { x },
                _ => { return None; },
            },
        };
        Some(inst)
    }
}

/// Splits a 16-bit word into its high and low byte.
pub fn bytes(x: u16) -> (r: [u8; 2])
    ensures
        r@ == bytes_of(x),
{
    let lo = (x % 0x100) as u8;
    let hi = (x / 0x100) as u8;
    let r = [hi, lo];
    assert(r@ =~= bytes_of(x));
    r
}

/// Splits a 16-bit word into its four nibbles, most significant first.
pub fn nibbles(x: u16) -> (r: [u8; 4])
    ensures
        r@ == nibbles_of(x),
{
    let r = [(x / 0x1000) as u8, (x / 0x100 % 0x10) as u8, (x / 0x10 % 0x10) as u8, (x % 0x10) as u8];
    assert(r@ =~= nibbles_of(x));
    r
}

/// An opcode packed from four 4-bit fields has exactly those fields.
proof fn lemma_pack(f: u16, x: u16, y: u16, n: u16)
    by (bit_vector)
    requires
        f < 16,
        x < 16,
        y < 16,
        n < 16,
    ensures
        f * 0x1000 + x * 0x100 + y * 0x10 + n <= 0xFFFF,
        (f * 0x1000 + x * 0x100 + y * 0x10 + n) as u16 / 0x1000 == f,
        (f * 0x1000 + x * 0x100 + y * 0x10 + n) as u16 / 0x100 % 0x10 == x,
        (f * 0x1000 + x * 0x100 + y * 0x10 + n) as u16 / 0x10 % 0x10 == y,
        (f * 0x1000 + x * 0x100 + y * 0x10 + n) as u16 % 0x10 == n,
        (f * 0x1000 + x * 0x100 + y * 0x10 + n) as u16 % 0x100 == y * 0x10 + n,
        (f * 0x1000 + x * 0x100 + y * 0x10 + n) as u16 % 0x1000 == x * 0x100 + y * 0x10 + n,
{
}

/// Decoding inverts encoding: every executable instruction is what its own
/// opcode decodes to, so each instruction of the table can be reached.
pub proof fn decode_of_opcode(i: Instruction)
    requires
        i.executable(),
    ensures
        0 <= i.opcode() <= 0xFFFF,
        decode(i.opcode() as u16) == Some(i),
{
    match i {
        Instruction::Sys { .. } => {},
        Instruction::Cls => {
            lemma_pack(0, 0, 0xE, 0x0);
        },
        Instruction::Ret => {
            lemma_pack(0, 0, 0xE, 0xE);
        },
        Instruction::Jump { addr } => {
            lemma_pack(1, addr.0 / 0x100, addr.0 / 0x10 % 0x10, addr.0 % 0x10);
        },
        Instruction::Call { addr } => {
            lemma_pack(2, addr.0 / 0x100, addr.0 / 0x10 % 0x10, addr.0 % 0x10);
        },
        Instruction::SeVal { x, k } => {
            lemma_pack(3, x.0 as u16, k.0 as u16 / 0x10, k.0 as u16 % 0x10);
        },
        Instruction::SneVal { x, k } => {
            lemma_pack(4, x.0 as u16, k.0 as u16 / 0x10, k.0 as u16 % 0x10);
        },
        Instruction::SeReg { x, y } => {
            lemma_pack(5, x.0 as u16, y.0 as u16, 0);
        },
        Instruction::LdVal { x, k } => {
            lemma_pack(6, x.0 as u16, k.0 as u16 / 0x10, k.0 as u16 % 0x10);
        },
        Instruction::AddVal { x, k } => {
            lemma_pack(7, x.0 as u16, k.0 as u16 / 0x10, k.0 as u16 % 0x10);
        },
        Instruction::LdReg { x, y } => {
            lemma_pack(8, x.0 as u16, y.0 as u16, 0);
        },
        Instruction::Or { x, y } => {
            lemma_pack(8, x.0 as u16, y.0 as u16, 1);
        },
        Instruction::And { x, y } => {
            lemma_pack(8, x.0 as u16, y.0 as u16, 2);
        },
        Instruction::Xor { x, y } => {
            lemma_pack(8, x.0 as u16, y.0 as u16, 3);
        },
        Instruction::AddReg { x, y } => {
            lemma_pack(8, x.0 as u16, y.0 as u16, 4);
        },
        Instruction::Sub { x, y } => {
            lemma_pack(8, x.0 as u16, y.0 as u16, 5);
        },
        Instruction::Shr { x } => {
            lemma_pack(8, x.0 as u16, 0x0, 0x6);
        },
        Instruction::SubN { x, y } => {
            lemma_pack(8, x.0 as u16, y.0 as u16, 7);
        },
        Instruction::Shl { x } => {
            lemma_pack(8, x.0 as u16, 0x0, 0xE);
        },
        Instruction::SneReg { x, y } => {
            lemma_pack(9, x.0 as u16, y.0 as u16, 0);
        },
        Instruction::LdI { addr } => {
            lemma_pack(10, addr.0 / 0x100, addr.0 / 0x10 % 0x10, addr.0 % 0x10);
        },
        Instruction::JpOfs { addr } => {
            lemma_pack(11, addr.0 / 0x100, addr.0 / 0x10 % 0x10, addr.0 % 0x10);
        },
        Instruction::Rnd { x, k } => {
            lemma_pack(12, x.0 as u16, k.0 as u16 / 0x10, k.0 as u16 % 0x10);
        },
        Instruction::Drw { x, y, n } => {
            lemma_pack(13, x.0 as u16, y.0 as u16, n as u16);
        },
        Instruction::Skp { x } => {
            lemma_pack(14, x.0 as u16, 0x9, 0xE);
        },
        Instruction::Sknp { x } => {
            lemma_pack(14, x.0 as u16, 0xA, 0x1);
        },
        Instruction::Dt { x } => {
            lemma_pack(15, x.0 as u16, 0x0, 0x7);
        },
        Instruction::LdKey { x } => {
            lemma_pack(15, x.0 as u16, 0x0, 0xA);
        },
        Instruction::LdDt { x } => {
            lemma_pack(15, x.0 as u16, 0x1, 0x5);
        },
        Instruction::LdSt { x } => {
            lemma_pack(15, x.0 as u16, 0x1, 0x8);
        },
        Instruction::AddI { x } => {
            lemma_pack(15, x.0 as u16, 0x1, 0xE);
        },
        Instruction::LdDigit { x } => {
            lemma_pack(15, x.0 as u16, 0x2, 0x9);
        },
        Instruction::Bcd { x } => {
            lemma_pack(15, x.0 as u16, 0x3, 0x3);
        },
        Instruction::Store { x } => {
            lemma_pack(15, x.0 as u16, 0x5, 0x5);
        },
        Instruction::Read { x } => {
            lemma_pack(15, x.0 as u16, 0x6, 0x5);
        },
    }
}

/// An opcode is its four 4-bit fields packed together.
proof fn lemma_unpack(op: u16)
    by (bit_vector)
    ensures
        op / 0x1000 < 16,
        op == (op / 0x1000) * 0x1000 + (op / 0x100 % 0x10) * 0x100 + (op / 0x10 % 0x10) * 0x10 + op % 0x10,
        op % 0x100 == (op / 0x10 % 0x10) * 0x10 + op % 0x10,
        op % 0x1000 == (op / 0x100 % 0x10) * 0x100 + (op / 0x10 % 0x10) * 0x10 + op % 0x10,
{
}

/// Encoding inverts decoding: a decoded instruction is executable and
/// encodes to the opcode it came from. The two shifts carry no second
/// register, so for them this holds of the opcode with that field cleared.
pub proof fn opcode_of_decode(opcode: u16)
    ensures
        decode(opcode) matches Some(i) ==> i.executable() && i.opcode() == (if i is Shr || i is Shl {
            opcode - nibble(opcode, 2) * 0x10
        } else {
            opcode as int
        }),
{
    lemma_unpack(opcode);
}

/// An opcode that does not decode is the encoding of no executable
/// instruction: the decoder fails only where the table has no entry.
pub proof fn undecodable_encodes_nothing(opcode: u16, i: Instruction)
    requires
        decode(opcode) is None,
        i.executable(),
    ensures
        i.opcode() != opcode,
{
    decode_of_opcode(i);
}

} // verus!
