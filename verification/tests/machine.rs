use chip8::instruction::Instruction;
use chip8::machine::Chip8;
use chip8::state::{glyph_table, Fault, Input};
use chip8::types::{Addr, RegId, Val};

fn idle() -> Input {
    Input { keys: [false; 16], random: 0 }
}

fn with_key(key: usize) -> Input {
    let mut keys = [false; 16];
    keys[key] = true;
    Input { keys, random: 0 }
}

fn set(m: &mut Chip8, x: u8, k: u8) {
    assert_eq!(m.exec(Instruction::LdVal { x: RegId(x), k: Val(k) }, &idle()), Ok(()));
}

fn v(m: &Chip8, x: u8) -> u8 {
    m.reg(RegId(x)).get().0
}

fn registers(m: &Chip8) -> Vec<u8> {
    (0..16).map(|x| v(m, x)).collect()
}

fn lit_pixels(m: &Chip8) -> Vec<(usize, usize)> {
    let mut lit = Vec::new();
    for y in 0..32 {
        for x in 0..64 {
            if m.display().is_set(x, y) {
                lit.push((x, y));
            }
        }
    }
    lit
}

#[test]
fn new_machine_is_in_initial_state() {
    let m = Chip8::new();
    assert_eq!(m.pc(), Addr(0x200));
    assert_eq!(m.index(), Addr(0));
    assert_eq!(registers(&m), vec![0; 16]);
    assert_eq!(m.stack_depth(), 0);
    assert_eq!(m.delay_timer(), 0);
    assert_eq!(m.sound_timer(), 0);
    assert!(lit_pixels(&m).is_empty());
    let glyphs = glyph_table();
    for a in 0..4096u16 {
        let expected = if a < 80 { glyphs[a as usize] } else { 0 };
        assert_eq!(m.byte_at(Addr(a)), expected);
    }
}

#[test]
fn add_reg_sets_carry() {
    let mut m = Chip8::new();
    set(&mut m, 0, 0xFF);
    set(&mut m, 1, 0x01);
    assert_eq!(m.exec(Instruction::AddReg { x: RegId(0), y: RegId(1) }, &idle()), Ok(()));
    assert_eq!(v(&m, 0), 0x00);
    assert_eq!(v(&m, 0xF), 1);
    set(&mut m, 0, 0x01);
    assert_eq!(m.exec(Instruction::AddReg { x: RegId(0), y: RegId(1) }, &idle()), Ok(()));
    assert_eq!(v(&m, 0), 0x02);
    assert_eq!(v(&m, 0xF), 0);
}

#[test]
fn sub_sets_flag_when_no_borrow() {
    let mut m = Chip8::new();
    set(&mut m, 2, 0x05);
    set(&mut m, 3, 0x03);
    assert_eq!(m.exec(Instruction::Sub { x: RegId(2), y: RegId(3) }, &idle()), Ok(()));
    assert_eq!(v(&m, 2), 0x02);
    assert_eq!(v(&m, 0xF), 1);
    set(&mut m, 2, 0x03);
    set(&mut m, 3, 0x05);
    assert_eq!(m.exec(Instruction::Sub { x: RegId(2), y: RegId(3) }, &idle()), Ok(()));
    assert_eq!(v(&m, 2), 0xFE);
    assert_eq!(v(&m, 0xF), 0);
}

#[test]
fn subn_subtracts_into_second_register() {
    let mut m = Chip8::new();
    set(&mut m, 2, 0x03);
    set(&mut m, 3, 0x05);
    assert_eq!(m.exec(Instruction::SubN { x: RegId(2), y: RegId(3) }, &idle()), Ok(()));
    assert_eq!(v(&m, 2), 0x03);
    assert_eq!(v(&m, 3), 0x02);
    assert_eq!(v(&m, 0xF), 1);
    set(&mut m, 2, 0x09);
    assert_eq!(m.exec(Instruction::SubN { x: RegId(2), y: RegId(3) }, &idle()), Ok(()));
    assert_eq!(v(&m, 3), 0xF9);
    assert_eq!(v(&m, 0xF), 0);
}

#[test]
fn shifts_put_the_lost_bit_in_the_flag() {
    let mut m = Chip8::new();
    set(&mut m, 4, 0x03);
    assert_eq!(m.exec(Instruction::Shr { x: RegId(4) }, &idle()), Ok(()));
    assert_eq!(v(&m, 4), 0x01);
    assert_eq!(v(&m, 0xF), 1);
    set(&mut m, 4, 0x81);
    assert_eq!(m.exec(Instruction::Shl { x: RegId(4) }, &idle()), Ok(()));
    assert_eq!(v(&m, 4), 0x02);
    assert_eq!(v(&m, 0xF), 1);
    set(&mut m, 4, 0x02);
    assert_eq!(m.exec(Instruction::Shr { x: RegId(4) }, &idle()), Ok(()));
    assert_eq!(v(&m, 4), 0x01);
    assert_eq!(v(&m, 0xF), 0);
}

#[test]
fn flag_write_wins_when_target_is_flag_register() {
    let mut m = Chip8::new();
    set(&mut m, 0xF, 0xFF);
    set(&mut m, 1, 0x02);
    assert_eq!(m.exec(Instruction::AddReg { x: RegId(0xF), y: RegId(1) }, &idle()), Ok(()));
    assert_eq!(v(&m, 0xF), 1);
}

#[test]
fn add_val_wraps_and_leaves_flag() {
    let mut m = Chip8::new();
    set(&mut m, 0xF, 7);
    set(&mut m, 5, 0xF0);
    assert_eq!(m.exec(Instruction::AddVal { x: RegId(5), k: Val(0x20) }, &idle()), Ok(()));
    assert_eq!(v(&m, 5), 0x10);
    assert_eq!(v(&m, 0xF), 7);
}

#[test]
fn bitwise_instructions() {
    let mut m = Chip8::new();
    for (instruction, expected) in [
        (Instruction::Or { x: RegId(0), y: RegId(1) }, 0b1110u8),
        (Instruction::And { x: RegId(0), y: RegId(1) }, 0b1000),
        (Instruction::Xor { x: RegId(0), y: RegId(1) }, 0b0110),
        (Instruction::LdReg { x: RegId(0), y: RegId(1) }, 0b1010),
    ] {
        set(&mut m, 0, 0b1100);
        set(&mut m, 1, 0b1010);
        assert_eq!(m.exec(instruction, &idle()), Ok(()));
        assert_eq!(v(&m, 0), expected);
        assert_eq!(v(&m, 1), 0b1010);
    }
}

#[test]
fn ordinary_instruction_advances_by_two() {
    let mut m = Chip8::new();
    set(&mut m, 0, 1);
    assert_eq!(m.pc(), Addr(0x202));
    assert_eq!(m.exec(Instruction::Cls, &idle()), Ok(()));
    assert_eq!(m.pc(), Addr(0x204));
}

#[test]
fn skips_advance_by_four_when_condition_holds() {
    let mut m = Chip8::new();
    set(&mut m, 0, 9);
    set(&mut m, 1, 9);
    set(&mut m, 2, 4);
    let cases = [
        (Instruction::SeVal { x: RegId(0), k: Val(9) }, true),
        (Instruction::SeVal { x: RegId(0), k: Val(8) }, false),
        (Instruction::SneVal { x: RegId(0), k: Val(9) }, false),
        (Instruction::SneVal { x: RegId(0), k: Val(8) }, true),
        (Instruction::SeReg { x: RegId(0), y: RegId(1) }, true),
        (Instruction::SeReg { x: RegId(0), y: RegId(2) }, false),
        (Instruction::SneReg { x: RegId(0), y: RegId(1) }, false),
        (Instruction::SneReg { x: RegId(0), y: RegId(2) }, true),
    ];
    for (instruction, skips) in cases {
        let before = m.pc().0;
        assert_eq!(m.exec(instruction, &idle()), Ok(()));
        assert_eq!(m.pc().0, before + if skips { 4 } else { 2 }, "{:?}", instruction);
    }
}

#[test]
fn key_skips_follow_the_key_state() {
    let mut m = Chip8::new();
    set(&mut m, 0, 0xB);
    let before = m.pc().0;
    assert_eq!(m.exec(Instruction::Skp { x: RegId(0) }, &with_key(0xB)), Ok(()));
    assert_eq!(m.pc().0, before + 4);
    assert_eq!(m.exec(Instruction::Skp { x: RegId(0) }, &with_key(0xA)), Ok(()));
    assert_eq!(m.pc().0, before + 6);
    assert_eq!(m.exec(Instruction::Sknp { x: RegId(0) }, &with_key(0xB)), Ok(()));
    assert_eq!(m.pc().0, before + 8);
    assert_eq!(m.exec(Instruction::Sknp { x: RegId(0) }, &idle()), Ok(()));
    assert_eq!(m.pc().0, before + 12);
    set(&mut m, 0, 0x1B);
    let before = m.pc().0;
    assert_eq!(m.exec(Instruction::Skp { x: RegId(0) }, &with_key(0xB)), Ok(()));
    assert_eq!(m.pc().0, before + 2);
}

#[test]
fn key_wait_does_not_advance_until_a_key_is_down() {
    let mut m = Chip8::new();
    let before = m.pc();
    assert_eq!(m.exec(Instruction::LdKey { x: RegId(3) }, &idle()), Ok(()));
    assert_eq!(m.pc(), before);
    assert_eq!(v(&m, 3), 0);
    let mut keys = [false; 16];
    keys[0xC] = true;
    keys[0x7] = true;
    assert_eq!(m.exec(Instruction::LdKey { x: RegId(3) }, &Input { keys, random: 0 }), Ok(()));
    assert_eq!(m.pc(), Addr(before.0 + 2));
    assert_eq!(v(&m, 3), 0x7);
}

#[test]
fn jump_sets_the_program_counter() {
    let mut m = Chip8::new();
    assert_eq!(m.exec(Instruction::Jump { addr: Addr(0x456) }, &idle()), Ok(()));
    assert_eq!(m.pc(), Addr(0x456));
    assert_eq!(m.exec(Instruction::Jump { addr: Addr(0) }, &idle()), Ok(()));
    assert_eq!(m.pc(), Addr(0));
}

#[test]
fn call_then_ret_restores_program_counter_at_every_depth() {
    let mut m = Chip8::new();
    for depth in 0..16u16 {
        let before = m.pc();
        assert_eq!(m.exec(Instruction::Call { addr: Addr(0x800) }, &idle()), Ok(()));
        assert_eq!(m.pc(), Addr(0x800));
        assert_eq!(m.stack_depth(), depth as usize + 1);
        assert_eq!(m.exec(Instruction::Ret, &idle()), Ok(()));
        assert_eq!(m.pc(), before);
        assert_eq!(m.stack_depth(), depth as usize);
        // go one level deeper from a new address
        assert_eq!(m.exec(Instruction::Jump { addr: Addr(0x300 + 2 * depth) }, &idle()), Ok(()));
        assert_eq!(m.exec(Instruction::Call { addr: Addr(0x400) }, &idle()), Ok(()));
    }
    assert_eq!(m.stack_depth(), 16);
    for depth in (0..16u16).rev() {
        assert_eq!(m.exec(Instruction::Ret, &idle()), Ok(()));
        assert_eq!(m.pc(), Addr(0x300 + 2 * depth));
    }
}

#[test]
fn seventeenth_call_faults() {
    let mut m = Chip8::new();
    for _ in 0..16 {
        assert_eq!(m.exec(Instruction::Call { addr: Addr(0x300) }, &idle()), Ok(()));
    }
    assert_eq!(
        m.exec(Instruction::Call { addr: Addr(0x400) }, &idle()),
        Err(Fault::StackOverflow { pc: Addr(0x300) })
    );
    assert_eq!(m.pc(), Addr(0x300));
    assert_eq!(m.stack_depth(), 16);
}

#[test]
fn ret_on_empty_stack_faults() {
    let mut m = Chip8::new();
    assert_eq!(m.exec(Instruction::Ret, &idle()), Err(Fault::StackUnderflow { pc: Addr(0x200) }));
    assert_eq!(m.pc(), Addr(0x200));
}

#[test]
fn bcd_stores_three_digits() {
    let mut m = Chip8::new();
    set(&mut m, 6, 234);
    assert_eq!(m.exec(Instruction::LdI { addr: Addr(0x300) }, &idle()), Ok(()));
    assert_eq!(m.exec(Instruction::Bcd { x: RegId(6) }, &idle()), Ok(()));
    assert_eq!(m.byte_at(Addr(0x300)), 2);
    assert_eq!(m.byte_at(Addr(0x301)), 3);
    assert_eq!(m.byte_at(Addr(0x302)), 4);
    assert_eq!(m.byte_at(Addr(0x303)), 0);
    set(&mut m, 6, 7);
    assert_eq!(m.exec(Instruction::Bcd { x: RegId(6) }, &idle()), Ok(()));
    assert_eq!(m.byte_at(Addr(0x300)), 0);
    assert_eq!(m.byte_at(Addr(0x301)), 0);
    assert_eq!(m.byte_at(Addr(0x302)), 7);
}

#[test]
fn store_then_read_round_trips_for_every_register_count() {
    for last in 0..16u8 {
        let mut m = Chip8::new();
        for x in 0..16u8 {
            set(&mut m, x, 0x10 + x);
        }
        assert_eq!(m.exec(Instruction::LdI { addr: Addr(0x500) }, &idle()), Ok(()));
        assert_eq!(m.exec(Instruction::Store { x: RegId(last) }, &idle()), Ok(()));
        for a in 0..16u16 {
            let expected = if a <= last as u16 { 0x10 + a as u8 } else { 0 };
            assert_eq!(m.byte_at(Addr(0x500 + a)), expected);
        }
        assert_eq!(m.index(), Addr(0x500));
        for x in 0..16u8 {
            set(&mut m, x, 0xEE);
        }
        assert_eq!(m.exec(Instruction::Read { x: RegId(last) }, &idle()), Ok(()));
        for x in 0..16u8 {
            let expected = if x <= last { 0x10 + x } else { 0xEE };
            assert_eq!(v(&m, x), expected);
        }
    }
}

#[test]
fn memory_access_outside_memory_faults() {
    let mut m = Chip8::new();
    assert_eq!(m.exec(Instruction::LdI { addr: Addr(0xFFE) }, &idle()), Ok(()));
    let pc = m.pc();
    let v_before = registers(&m);
    assert_eq!(m.exec(Instruction::Bcd { x: RegId(0) }, &idle()), Err(Fault::OutOfBounds { pc }));
    assert_eq!(m.exec(Instruction::Store { x: RegId(2) }, &idle()), Err(Fault::OutOfBounds { pc }));
    assert_eq!(m.exec(Instruction::Read { x: RegId(2) }, &idle()), Err(Fault::OutOfBounds { pc }));
    assert_eq!(
        m.exec(Instruction::Drw { x: RegId(0), y: RegId(0), n: 3 }, &idle()),
        Err(Fault::OutOfBounds { pc })
    );
    assert_eq!(m.pc(), pc);
    assert_eq!(registers(&m), v_before);
    assert_eq!(m.byte_at(Addr(0xFFE)), 0);
    assert_eq!(m.byte_at(Addr(0xFFF)), 0);
    assert_eq!(m.exec(Instruction::Store { x: RegId(1) }, &idle()), Ok(()));
    assert_eq!(m.exec(Instruction::Drw { x: RegId(0), y: RegId(0), n: 2 }, &idle()), Ok(()));
}

#[test]
fn index_arithmetic() {
    let mut m = Chip8::new();
    set(&mut m, 0, 0x10);
    set(&mut m, 1, 0xFF);
    assert_eq!(m.exec(Instruction::JpOfs { addr: Addr(0x300) }, &idle()), Ok(()));
    assert_eq!(m.index(), Addr(0x310));
    assert_eq!(m.pc(), Addr(0x206));
    assert_eq!(m.exec(Instruction::AddI { x: RegId(1) }, &idle()), Ok(()));
    assert_eq!(m.index(), Addr(0x40F));
    assert_eq!(m.exec(Instruction::LdI { addr: Addr(0xF01) }, &idle()), Ok(()));
    let pc = m.pc();
    assert_eq!(m.exec(Instruction::AddI { x: RegId(1) }, &idle()), Err(Fault::OutOfBounds { pc }));
    assert_eq!(m.index(), Addr(0xF01));
    assert_eq!(m.exec(Instruction::JpOfs { addr: Addr(0xFF0) }, &idle()), Err(Fault::OutOfBounds { pc }));
    assert_eq!(m.exec(Instruction::JpOfs { addr: Addr(0xFEF) }, &idle()), Ok(()));
    assert_eq!(m.index(), Addr(0xFFF));
}

#[test]
fn digit_sprite_address_is_five_times_the_digit() {
    let mut m = Chip8::new();
    set(&mut m, 0, 0xA);
    assert_eq!(m.exec(Instruction::LdDigit { x: RegId(0) }, &idle()), Ok(()));
    assert_eq!(m.index(), Addr(50));
    let glyph: Vec<u8> = (0..5).map(|k| m.byte_at(Addr(50 + k))).collect();
    assert_eq!(glyph, vec![0xF0, 0x90, 0xF0, 0x90, 0x90]);
}

#[test]
fn random_byte_is_masked() {
    let mut m = Chip8::new();
    let input = Input { keys: [false; 16], random: 0xAB };
    assert_eq!(m.exec(Instruction::Rnd { x: RegId(1), k: Val(0x0F) }, &input), Ok(()));
    assert_eq!(v(&m, 1), 0x0B);
}

#[test]
fn timers_are_read_written_and_ticked() {
    let mut m = Chip8::new();
    set(&mut m, 0, 2);
    set(&mut m, 1, 1);
    assert_eq!(m.exec(Instruction::LdDt { x: RegId(0) }, &idle()), Ok(()));
    assert_eq!(m.exec(Instruction::LdSt { x: RegId(1) }, &idle()), Ok(()));
    assert_eq!((m.delay_timer(), m.sound_timer()), (2, 1));
    m.tick_timers();
    assert_eq!((m.delay_timer(), m.sound_timer()), (1, 0));
    assert_eq!(m.exec(Instruction::Dt { x: RegId(5) }, &idle()), Ok(()));
    assert_eq!(v(&m, 5), 1);
    m.tick_timers();
    m.tick_timers();
    assert_eq!((m.delay_timer(), m.sound_timer()), (0, 0));
}

#[test]
fn draw_instruction_draws_from_memory_and_sets_flag() {
    let mut m = Chip8::new();
    set(&mut m, 0, 60);
    set(&mut m, 1, 5);
    assert_eq!(m.exec(Instruction::LdI { addr: Addr(0) }, &idle()), Ok(()));
    assert_eq!(m.exec(Instruction::Drw { x: RegId(0), y: RegId(1), n: 1 }, &idle()), Ok(()));
    assert_eq!(lit_pixels(&m), vec![(60, 5), (61, 5), (62, 5), (63, 5)]);
    assert_eq!(v(&m, 0xF), 0);
    assert_eq!(m.exec(Instruction::Drw { x: RegId(0), y: RegId(1), n: 1 }, &idle()), Ok(()));
    assert!(lit_pixels(&m).is_empty());
    assert_eq!(v(&m, 0xF), 1);
    assert_eq!(m.exec(Instruction::Drw { x: RegId(0), y: RegId(1), n: 5 }, &idle()), Ok(()));
    assert_eq!(m.exec(Instruction::Cls, &idle()), Ok(()));
    assert!(lit_pixels(&m).is_empty());
}

#[test]
fn step_fetches_big_endian_opcodes() {
    let mut m = Chip8::new();
    assert_eq!(m.load(&[0x60, 0xFF, 0x12, 0x34]), Ok(()));
    assert_eq!(m.fetch(), Ok(0x60FF));
    assert_eq!(m.step(&idle()), Ok(()));
    assert_eq!(v(&m, 0), 0xFF);
    assert_eq!(m.pc(), Addr(0x202));
    assert_eq!(m.fetch(), Ok(0x1234));
    assert_eq!(m.step(&idle()), Ok(()));
    assert_eq!(m.pc(), Addr(0x234));
}

#[test]
fn unknown_opcode_faults_with_opcode_and_address() {
    let mut m = Chip8::new();
    assert_eq!(m.load(&[0x00, 0xE0, 0x5A, 0xB1]), Ok(()));
    assert_eq!(m.step(&idle()), Ok(()));
    assert_eq!(
        m.step(&idle()),
        Err(Fault::UnknownInstruction { opcode: 0x5AB1, addr: Addr(0x202) })
    );
    assert_eq!(m.pc(), Addr(0x202));
    assert_eq!(
        m.exec_opcode(0xF0FF, &idle()),
        Err(Fault::UnknownInstruction { opcode: 0xF0FF, addr: Addr(0x202) })
    );
}

#[test]
fn running_off_the_end_of_memory_faults() {
    let mut m = Chip8::new();
    assert_eq!(m.exec(Instruction::Jump { addr: Addr(0xFFF) }, &idle()), Ok(()));
    assert_eq!(m.fetch(), Err(Fault::OutOfBounds { pc: Addr(0xFFF) }));
    assert_eq!(m.step(&idle()), Err(Fault::OutOfBounds { pc: Addr(0xFFF) }));
    assert_eq!(m.exec(Instruction::Jump { addr: Addr(0xFFE) }, &idle()), Ok(()));
    assert_eq!(m.fetch(), Ok(0));
    assert_eq!(
        m.exec(Instruction::LdVal { x: RegId(0), k: Val(1) }, &idle()),
        Err(Fault::OutOfBounds { pc: Addr(0xFFE) })
    );
    assert_eq!(v(&m, 0), 0);
    assert_eq!(m.exec(Instruction::Jump { addr: Addr(0xFFC) }, &idle()), Ok(()));
    assert_eq!(
        m.exec(Instruction::SeVal { x: RegId(0), k: Val(0) }, &idle()),
        Err(Fault::OutOfBounds { pc: Addr(0xFFC) })
    );
    assert_eq!(m.exec(Instruction::SeVal { x: RegId(0), k: Val(1) }, &idle()), Ok(()));
    assert_eq!(m.pc(), Addr(0xFFE));
}

#[test]
fn load_copies_the_image_to_the_program_area() {
    let mut m = Chip8::new();
    let image: Vec<u8> = (0..3584u32).map(|k| (k % 251) as u8 + 1).collect();
    assert_eq!(m.load(&image), Ok(()));
    assert_eq!(m.byte_at(Addr(0x1FF)), 0);
    for (k, byte) in image.iter().enumerate() {
        assert_eq!(m.byte_at(Addr(0x200 + k as u16)), *byte);
    }
    assert_eq!(m.byte_at(Addr(0)), 0xF0);
}

#[test]
fn load_refuses_an_image_that_does_not_fit() {
    let mut m = Chip8::new();
    let image = vec![0xAAu8; 3585];
    assert_eq!(m.load(&image), Err(Fault::OutOfBounds { pc: Addr(0x200) }));
    assert_eq!(m.byte_at(Addr(0x200)), 0);
    assert_eq!(m.load(&[]), Ok(()));
}

#[test]
fn set_carry_and_reg_mut_change_registers() {
    let mut m = Chip8::new();
    m.set_carry(true);
    assert_eq!(v(&m, 0xF), 1);
    m.set_carry(false);
    assert_eq!(v(&m, 0xF), 0);
    m.reg_mut(RegId(9)).set(Val(0x42));
    assert_eq!(v(&m, 9), 0x42);
    assert!(m.reg_mut(RegId(9)).add(Val(0xC0)));
    assert_eq!(v(&m, 9), 0x02);
}

#[test]
fn timers_can_be_set_from_outside() {
    let mut m = Chip8::new();
    m.set_delay_timer(200);
    m.set_sound_timer(3);
    assert_eq!((m.delay_timer(), m.sound_timer()), (200, 3));
    assert_eq!(m.exec(Instruction::Dt { x: RegId(2) }, &idle()), Ok(()));
    assert_eq!(v(&m, 2), 200);
    m.tick_timers();
    assert_eq!((m.delay_timer(), m.sound_timer()), (199, 2));
}
