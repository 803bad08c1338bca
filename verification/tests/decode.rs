use chip8::instruction::{bytes, nibbles, Instruction};
use chip8::types::{Addr, RegId, Val};

#[test]
fn decodes_fixed_opcodes() {
    assert_eq!(Instruction::interpret(0x00E0), Some(Instruction::Cls));
    assert_eq!(Instruction::interpret(0x00EE), Some(Instruction::Ret));
}

#[test]
fn decodes_address_forms() {
    assert_eq!(Instruction::interpret(0x1ABC), Some(Instruction::Jump { addr: Addr(0xABC) }));
    assert_eq!(Instruction::interpret(0x2123), Some(Instruction::Call { addr: Addr(0x123) }));
    assert_eq!(Instruction::interpret(0xAFFF), Some(Instruction::LdI { addr: Addr(0xFFF) }));
    assert_eq!(Instruction::interpret(0xB000), Some(Instruction::JpOfs { addr: Addr(0) }));
}

#[test]
fn decodes_register_and_byte_forms() {
    let x = RegId(0xA);
    let k = Val(0x5C);
    assert_eq!(Instruction::interpret(0x3A5C), Some(Instruction::SeVal { x, k }));
    assert_eq!(Instruction::interpret(0x4A5C), Some(Instruction::SneVal { x, k }));
    assert_eq!(Instruction::interpret(0x6A5C), Some(Instruction::LdVal { x, k }));
    assert_eq!(Instruction::interpret(0x7A5C), Some(Instruction::AddVal { x, k }));
    assert_eq!(Instruction::interpret(0xCA5C), Some(Instruction::Rnd { x, k }));
}

#[test]
fn decodes_two_register_forms() {
    let x = RegId(3);
    let y = RegId(0xE);
    assert_eq!(Instruction::interpret(0x53E0), Some(Instruction::SeReg { x, y }));
    assert_eq!(Instruction::interpret(0x83E0), Some(Instruction::LdReg { x, y }));
    assert_eq!(Instruction::interpret(0x83E1), Some(Instruction::Or { x, y }));
    assert_eq!(Instruction::interpret(0x83E2), Some(Instruction::And { x, y }));
    assert_eq!(Instruction::interpret(0x83E3), Some(Instruction::Xor { x, y }));
    assert_eq!(Instruction::interpret(0x83E4), Some(Instruction::AddReg { x, y }));
    assert_eq!(Instruction::interpret(0x83E5), Some(Instruction::Sub { x, y }));
    assert_eq!(Instruction::interpret(0x83E6), Some(Instruction::Shr { x }));
    assert_eq!(Instruction::interpret(0x83E7), Some(Instruction::SubN { x, y }));
    assert_eq!(Instruction::interpret(0x83EE), Some(Instruction::Shl { x }));
    assert_eq!(Instruction::interpret(0x93E0), Some(Instruction::SneReg { x, y }));
    assert_eq!(Instruction::interpret(0xD3E7), Some(Instruction::Drw { x, y, n: 7 }));
}

#[test]
fn decodes_key_and_misc_forms() {
    let x = RegId(0xF);
    assert_eq!(Instruction::interpret(0xEF9E), Some(Instruction::Skp { x }));
    assert_eq!(Instruction::interpret(0xEFA1), Some(Instruction::Sknp { x }));
    assert_eq!(Instruction::interpret(0xFF07), Some(Instruction::Dt { x }));
    assert_eq!(Instruction::interpret(0xFF0A), Some(Instruction::LdKey { x }));
    assert_eq!(Instruction::interpret(0xFF15), Some(Instruction::LdDt { x }));
    assert_eq!(Instruction::interpret(0xFF18), Some(Instruction::LdSt { x }));
    assert_eq!(Instruction::interpret(0xFF1E), Some(Instruction::AddI { x }));
    assert_eq!(Instruction::interpret(0xFF29), Some(Instruction::LdDigit { x }));
    assert_eq!(Instruction::interpret(0xFF33), Some(Instruction::Bcd { x }));
    assert_eq!(Instruction::interpret(0xFF55), Some(Instruction::Store { x }));
    assert_eq!(Instruction::interpret(0xFF65), Some(Instruction::Read { x }));
}

#[test]
fn rejects_opcodes_outside_the_table() {
    for opcode in [0x0000u16, 0x00E1, 0x0123, 0x5001, 0x5AB7, 0x8008, 0x800F, 0x9001, 0xE000, 0xE19F, 0xF000, 0xF1FF] {
        assert_eq!(Instruction::interpret(opcode), None, "opcode {:04x}", opcode);
    }
}

#[test]
fn decoding_is_total_and_never_yields_sys() {
    let mut decoded: u32 = 0;
    for opcode in 0..=0xFFFFu16 {
        match Instruction::interpret(opcode) {
            Some(Instruction::Sys { .. }) => panic!("opcode {:04x} decoded to Sys", opcode),
            Some(_) => decoded += 1,
            None => {}
        }
    }
    // 2 fixed opcodes, 10 families of 4096, 11 forms with two registers,
    // 11 forms with one register.
    assert_eq!(decoded, 2 + 10 * 4096 + 11 * 256 + 11 * 16);
}

#[test]
fn decoding_is_deterministic() {
    for opcode in [0x00E0u16, 0x1234, 0x8AB4, 0xD125, 0xF133, 0xFFFF] {
        assert_eq!(Instruction::interpret(opcode), Instruction::interpret(opcode));
    }
}

#[test]
fn splits_words_into_bytes_and_nibbles() {
    assert_eq!(bytes(0xABCD), [0xAB, 0xCD]);
    assert_eq!(bytes(0x00FF), [0x00, 0xFF]);
    assert_eq!(nibbles(0xABCD), [0xA, 0xB, 0xC, 0xD]);
    assert_eq!(nibbles(0x0001), [0, 0, 0, 1]);
}
