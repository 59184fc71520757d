use toychip::event::{Hotkey, Input, Mouse, MouseClick};
use toychip::interpreter::{ChipInterpreter, InterpreterState};

const FONT: [u8; 80] = [
    0xf0, 0x90, 0x90, 0x90, 0xf0, 0x20, 0x60, 0x20, 0x20, 0x70, 0xf0, 0x10, 0xf0, 0x80, 0xf0, 0xf0,
    0x10, 0xf0, 0x10, 0xf0, 0x90, 0x90, 0xf0, 0x10, 0x10, 0xf0, 0x80, 0xf0, 0x10, 0xf0, 0xf0, 0x80,
    0xf0, 0x90, 0xf0, 0xf0, 0x10, 0x20, 0x40, 0x40, 0xf0, 0x90, 0xf0, 0x90, 0xf0, 0xf0, 0x90, 0xf0,
    0x10, 0xf0, 0xf0, 0x90, 0xf0, 0x90, 0x90, 0xe0, 0x90, 0xe0, 0x90, 0xe0, 0xf0, 0x80, 0x80, 0x80,
    0xf0, 0xe0, 0x90, 0x90, 0x90, 0xe0, 0xf0, 0x80, 0xf0, 0x80, 0xf0, 0xf0, 0x80, 0xf0, 0x80, 0x80,
];

fn with_program(words: &[u16]) -> ChipInterpreter {
    let mut bytes = Vec::new();
    for w in words {
        bytes.push((w >> 8) as u8);
        bytes.push((w & 0xff) as u8);
    }
    let mut c = ChipInterpreter::new();
    c.load_program(bytes);
    c
}

fn run(c: &mut ChipInterpreter, cycles: usize) -> bool {
    let mut dirty = false;
    for _ in 0..cycles {
        dirty = c.step_with(vec![], false, 0);
    }
    dirty
}

fn key(k: Hotkey) -> Input {
    Input::Hotkey(k)
}

fn lit(c: &ChipInterpreter, x: usize, y: usize) -> u8 {
    c.vram().get(x, y)
}

#[test]
fn construction_state() {
    let c = ChipInterpreter::new();
    assert_eq!(c.program_counter(), 0x200);
    assert_eq!(c.index_register(), 0);
    assert_eq!(c.stack_pointer(), 0);
    assert_eq!(c.delay_timer(), 0);
    assert_eq!(c.sound_timer(), 0);
    assert_eq!(c.state(), InterpreterState::Running);
    assert!(!c.beep());
    assert!(c.vram().value().iter().all(|p| *p == 0));
    assert_eq!(c.vram().value().len(), 64 * 32);
    for a in 0..80 {
        assert_eq!(c.read_byte(a), FONT[a]);
    }
    for a in 80..4096 {
        assert_eq!(c.read_byte(a), 0);
    }
    for r in 0..16 {
        assert_eq!(c.register(r), 0);
    }
}

#[test]
fn ld_vx_byte_scenario() {
    let mut c = with_program(&[0x6a0f]);
    assert_eq!(c.register(0xa), 0);
    let dirty = c.step_with(vec![], false, 0);
    assert_eq!(c.register(0xa), 0x0f);
    assert_eq!(c.program_counter(), 0x202);
    assert!(!dirty);
}

#[test]
fn ld_vx_byte_through_step() {
    let mut c = with_program(&[0x6a0f]);
    let dirty = c.step(vec![]);
    assert_eq!(c.register(0xa), 0x0f);
    assert_eq!(c.program_counter(), 0x202);
    assert!(!dirty);
}

fn zero_sprite_program(second_draw: bool) -> ChipInterpreter {
    let mut words = vec![0xa300u16, 0xd005];
    if second_draw {
        words.push(0xd005);
    }
    let mut c = ChipInterpreter::new();
    c.load_program({
        let mut bytes = Vec::new();
        for w in &words {
            bytes.push((w >> 8) as u8);
            bytes.push((w & 0xff) as u8);
        }
        bytes.resize(0x100, 0);
        bytes.extend_from_slice(&[0xf0, 0x90, 0x90, 0x90, 0xf0]);
        bytes
    });
    c
}

#[test]
fn draw_zero_sprite_scenario() {
    let mut c = zero_sprite_program(true);
    assert!(!c.step_with(vec![], false, 0));
    assert_eq!(c.index_register(), 0x300);
    assert!(c.step_with(vec![], false, 0));
    let rows = [0xf0u8, 0x90, 0x90, 0x90, 0xf0];
    for (y, row) in rows.iter().enumerate() {
        for x in 0..8 {
            assert_eq!(lit(&c, x, y), (row >> (7 - x)) & 1, "pixel ({}, {})", x, y);
        }
    }
    let lit_count = c.vram().value().iter().filter(|p| **p == 1).count();
    assert_eq!(lit_count, 14);
    assert_eq!(c.register(0xf), 0);
    // the same sprite again erases it and reports the collision
    assert!(c.step_with(vec![], false, 0));
    assert_eq!(c.register(0xf), 1);
    assert!(c.vram().value().iter().all(|p| *p == 0));
}

#[test]
fn draw_wraps_on_both_axes() {
    // V0 = 62, V1 = 31, I at the font "0", draw 5 rows
    let mut c = with_program(&[0x603e, 0x611f, 0xa000, 0xd015]);
    run(&mut c, 4);
    // row 0 (0xf0) at y = 31: x = 62, 63, 0, 1
    assert_eq!(lit(&c, 62, 31), 1);
    assert_eq!(lit(&c, 63, 31), 1);
    assert_eq!(lit(&c, 0, 31), 1);
    assert_eq!(lit(&c, 1, 31), 1);
    assert_eq!(lit(&c, 2, 31), 0);
    // row 1 (0x90) wraps to y = 0: x = 62 and 1
    assert_eq!(lit(&c, 62, 0), 1);
    assert_eq!(lit(&c, 63, 0), 0);
    assert_eq!(lit(&c, 1, 0), 1);
}

#[test]
fn draw_coordinates_reduce_modulo_screen() {
    // V0 = 64 + 3, V1 = 32 + 2: same as (3, 2)
    let mut c = with_program(&[0x6043, 0x6122, 0xa000, 0xd011]);
    run(&mut c, 4);
    assert_eq!(lit(&c, 3, 2), 1);
    assert_eq!(lit(&c, 6, 2), 1);
    assert_eq!(lit(&c, 7, 2), 0);
}

#[test]
fn draw_twice_restores_screen() {
    // light a pixel, then draw digit 8 twice over it
    let mut c = with_program(&[0xa000, 0xd011, 0x6302, 0xa028, 0xd015, 0xd015]);
    run(&mut c, 4);
    let before = c.vram().value();
    run(&mut c, 1);
    assert_eq!(c.register(0xf), 1);
    run(&mut c, 1);
    assert_eq!(c.vram().value(), before);
    assert_eq!(c.register(0xf), 1);
}

#[test]
fn draw_twice_on_blank_screen_reports_set_bits() {
    // an empty sprite: neither draw reports a collision
    let mut c = with_program(&[0xa300, 0xd005, 0xd005]);
    run(&mut c, 3);
    assert_eq!(c.register(0xf), 0);
    assert!(c.vram().value().iter().all(|p| *p == 0));
}

#[test]
fn draw_twice_over_lit_pixels() {
    // the first draw of the one-bit sprite erases the lit pixel under it,
    // so the second draw lights it again without a collision
    let mut c = with_program(&[0xa300, 0xd001, 0xd001, 0xd001]);
    let mut bytes = vec![0xa3, 0x00, 0xd0, 0x01, 0xd0, 0x01, 0xd0, 0x01];
    bytes.resize(0x100, 0);
    bytes.push(0x80);
    c.load_program(bytes);
    run(&mut c, 2);
    assert_eq!(lit(&c, 0, 0), 1);
    run(&mut c, 1);
    assert_eq!(c.register(0xf), 1);
    assert_eq!(lit(&c, 0, 0), 0);
    run(&mut c, 1);
    assert_eq!(c.register(0xf), 0);
    assert_eq!(lit(&c, 0, 0), 1);
}

#[test]
fn add_with_carry_scenario() {
    let mut c = with_program(&[0x60f0, 0x6120, 0x8014]);
    run(&mut c, 3);
    assert_eq!(c.register(0), 0x10);
    assert_eq!(c.register(0xf), 1);
}

#[test]
fn add_without_carry() {
    let mut c = with_program(&[0x6010, 0x6120, 0x8014]);
    run(&mut c, 3);
    assert_eq!(c.register(0), 0x30);
    assert_eq!(c.register(0xf), 0);
}

#[test]
fn flag_overrides_result_in_vf() {
    // VF = 0xff; VF += 1 gives 0 with a carry: the flag wins
    let mut c = with_program(&[0x6fff, 0x6101, 0x8f14]);
    run(&mut c, 3);
    assert_eq!(c.register(0xf), 1);
}

#[test]
fn skip_when_equal_scenario() {
    let mut c = with_program(&[0x6a2a, 0x3a2a]);
    run(&mut c, 1);
    assert_eq!(c.program_counter(), 0x202);
    run(&mut c, 1);
    assert_eq!(c.program_counter(), 0x206);
}

#[test]
fn skip_instructions() {
    // SNE not taken, SE Vx Vy taken, SNE Vx Vy not taken
    let mut c = with_program(&[0x6005, 0x6105, 0x4005, 0x5010, 0x0000, 0x9010]);
    run(&mut c, 3);
    assert_eq!(c.program_counter(), 0x206);
    run(&mut c, 1);
    assert_eq!(c.program_counter(), 0x20a);
    run(&mut c, 1);
    assert_eq!(c.program_counter(), 0x20c);
}

#[test]
fn wait_for_key_scenario() {
    let mut c = with_program(&[0xf00a]);
    let dirty = c.step_with(vec![], false, 0);
    assert_eq!(c.program_counter(), 0x202);
    assert_eq!(c.state(), InterpreterState::WaitForKey);
    assert!(!dirty);
    // no key: still waiting
    c.step_with(vec![Input::Mouse(Mouse::new(MouseClick::Left, 1, 2))], true, 0);
    assert_eq!(c.state(), InterpreterState::WaitForKey);
    assert_eq!(c.program_counter(), 0x202);
    // key 0x5 (Z on the keypad layout)
    let dirty = c.step_with(vec![key(Hotkey::Z)], true, 0);
    assert_eq!(c.register(0), 0x05);
    assert_eq!(c.state(), InterpreterState::Running);
    assert_eq!(c.program_counter(), 0x202);
    assert!(!dirty);
    assert_eq!(c.delay_timer(), 0);
}

#[test]
fn wait_for_key_takes_first_pressed() {
    let mut c = with_program(&[0xf30a]);
    run(&mut c, 1);
    c.step_with(vec![key(Hotkey::Escape), key(Hotkey::V), key(Hotkey::Num1)], false, 0);
    assert_eq!(c.register(3), 0x0f);
}

#[test]
fn timers_tick_only_when_clock_fires() {
    // DT = 3, ST = 2
    let mut c = with_program(&[0x6003, 0xf015, 0x6102, 0xf118, 0x1208]);
    run(&mut c, 4);
    assert_eq!(c.delay_timer(), 3);
    assert_eq!(c.sound_timer(), 2);
    assert!(c.beep());
    c.step_with(vec![], false, 0);
    assert_eq!(c.delay_timer(), 3);
    c.step_with(vec![], true, 0);
    assert_eq!(c.delay_timer(), 2);
    assert_eq!(c.sound_timer(), 1);
    c.step_with(vec![], true, 0);
    assert_eq!(c.sound_timer(), 0);
    assert!(!c.beep());
    c.step_with(vec![], true, 0);
    c.step_with(vec![], true, 0);
    assert_eq!(c.delay_timer(), 0);
    assert_eq!(c.sound_timer(), 0);
}

#[test]
fn ld_vx_dt_reads_timer() {
    let mut c = with_program(&[0x6009, 0xf015, 0xf207]);
    run(&mut c, 2);
    c.step_with(vec![], true, 0);
    assert_eq!(c.register(2), 8);
}

#[test]
fn bcd_writes_three_digits_only() {
    // V0 = 234, I = 0x300
    let mut c = with_program(&[0x60ea, 0xa300, 0xf033]);
    run(&mut c, 3);
    assert_eq!(c.read_byte(0x300), 2);
    assert_eq!(c.read_byte(0x301), 3);
    assert_eq!(c.read_byte(0x302), 4);
    assert_eq!(c.read_byte(0x2ff), 0);
    assert_eq!(c.read_byte(0x303), 0);
    assert_eq!(c.index_register(), 0x300);
}

#[test]
fn bcd_wraps_at_end_of_memory() {
    // I = 0xfff; V0 = 9
    let mut c = with_program(&[0x6009, 0xafff, 0xf033]);
    run(&mut c, 3);
    assert_eq!(c.read_byte(0xfff), 0);
    assert_eq!(c.read_byte(0x000), 0);
    assert_eq!(c.read_byte(0x001), 9);
}

#[test]
fn store_registers_keeps_index() {
    let mut c = with_program(&[0x6011, 0x6122, 0x6233, 0xa400, 0xf155]);
    run(&mut c, 5);
    assert_eq!(c.read_byte(0x400), 0x11);
    assert_eq!(c.read_byte(0x401), 0x22);
    assert_eq!(c.read_byte(0x402), 0);
    assert_eq!(c.index_register(), 0x400);
}

#[test]
fn store_registers_original_load_advances_index() {
    let mut c = with_program(&[0x6011, 0x6122, 0x6233, 0xa400, 0xf255]);
    c.set_original_load(true);
    run(&mut c, 5);
    assert_eq!(c.read_byte(0x402), 0x33);
    assert_eq!(c.index_register(), 0x403);
}

#[test]
fn load_registers_keeps_index() {
    let mut c = with_program(&[0xa000, 0xf265]);
    run(&mut c, 2);
    assert_eq!(c.register(0), 0xf0);
    assert_eq!(c.register(1), 0x90);
    assert_eq!(c.register(2), 0x90);
    assert_eq!(c.register(3), 0);
    assert_eq!(c.index_register(), 0);
}

#[test]
fn load_registers_original_load_advances_index() {
    let mut c = with_program(&[0xa005, 0xf165]);
    c.set_original_load(true);
    run(&mut c, 2);
    assert_eq!(c.register(0), 0x20);
    assert_eq!(c.register(1), 0x60);
    assert_eq!(c.index_register(), 0x007);
}

#[test]
fn shifts_modern_and_original() {
    // V0 = 0x81, V1 = 0x04
    let mut c = with_program(&[0x6081, 0x6104, 0x8016]);
    run(&mut c, 3);
    assert_eq!(c.register(0), 0x40);
    assert_eq!(c.register(0xf), 1);

    let mut c = with_program(&[0x6081, 0x6104, 0x8016]);
    c.set_original_shift(true);
    run(&mut c, 3);
    assert_eq!(c.register(0), 0x02);
    assert_eq!(c.register(0xf), 1);

    let mut c = with_program(&[0x6081, 0x6104, 0x801e]);
    run(&mut c, 3);
    assert_eq!(c.register(0), 0x02);
    assert_eq!(c.register(0xf), 1);

    let mut c = with_program(&[0x6081, 0x6104, 0x801e]);
    c.set_original_shift(true);
    run(&mut c, 3);
    assert_eq!(c.register(0), 0x08);
    assert_eq!(c.register(0xf), 1);
}

#[test]
fn subtractions_set_not_borrow() {
    let mut c = with_program(&[0x6005, 0x6103, 0x8015]);
    run(&mut c, 3);
    assert_eq!(c.register(0), 2);
    assert_eq!(c.register(0xf), 1);

    let mut c = with_program(&[0x6003, 0x6105, 0x8015]);
    run(&mut c, 3);
    assert_eq!(c.register(0), 0xfe);
    assert_eq!(c.register(0xf), 0);

    // equal operands: no borrow, yet VF = 0 (VF = Vx > Vy)
    let mut c = with_program(&[0x6005, 0x6105, 0x8015]);
    run(&mut c, 3);
    assert_eq!(c.register(0), 0);
    assert_eq!(c.register(0xf), 0);

    let mut c = with_program(&[0x6003, 0x6105, 0x8017]);
    run(&mut c, 3);
    assert_eq!(c.register(0), 2);
    assert_eq!(c.register(0xf), 1);
}

#[test]
fn logic_and_add_byte() {
    let mut c = with_program(&[0x600c, 0x610a, 0x8011, 0x6212, 0x72f0, 0x630c, 0x8312, 0x640c, 0x8413, 0x8500]);
    run(&mut c, 10);
    assert_eq!(c.register(0), 0x0e);
    assert_eq!(c.register(2), 0x02);
    assert_eq!(c.register(3), 0x08);
    assert_eq!(c.register(4), 0x06);
    assert_eq!(c.register(5), 0x0e);
    assert_eq!(c.register(0xf), 0);
}

#[test]
fn jumps_calls_and_returns() {
    let mut c = with_program(&[0x2206, 0x0000, 0x0000, 0x00ee]);
    run(&mut c, 1);
    assert_eq!(c.program_counter(), 0x206);
    assert_eq!(c.stack_pointer(), 1);
    run(&mut c, 1);
    assert_eq!(c.program_counter(), 0x202);
    assert_eq!(c.stack_pointer(), 0);

    let mut c = with_program(&[0x1234]);
    run(&mut c, 1);
    assert_eq!(c.program_counter(), 0x234);

    // SYS behaves as a jump
    let mut c = with_program(&[0x0456]);
    run(&mut c, 1);
    assert_eq!(c.program_counter(), 0x456);

    // JP V0: (nnn + V0) & 0xfff
    let mut c = with_program(&[0x6010, 0xbff8]);
    run(&mut c, 2);
    assert_eq!(c.program_counter(), 0x008);
}

#[test]
fn stack_pointer_wraps() {
    // RET on an empty stack wraps SP to 15
    let mut c = with_program(&[0x00ee]);
    run(&mut c, 1);
    assert_eq!(c.stack_pointer(), 15);
    assert_eq!(c.program_counter(), 0);
    // seventeen nested calls wrap SP back to 1
    let mut c = with_program(&[0x2200]);
    run(&mut c, 17);
    assert_eq!(c.stack_pointer(), 1);
}

#[test]
fn cls_clears_and_sets_dirty() {
    let mut c = with_program(&[0xa000, 0xd005, 0x00e0]);
    run(&mut c, 2);
    assert!(c.vram().value().iter().any(|p| *p == 1));
    assert!(c.step_with(vec![], false, 0));
    assert!(c.vram().value().iter().all(|p| *p == 0));
}

#[test]
fn random_byte_is_masked() {
    let mut c = with_program(&[0xc30f]);
    c.step_with(vec![], false, 0xff);
    assert_eq!(c.register(3), 0x0f);
    let mut c = with_program(&[0xc3f0]);
    c.step_with(vec![], false, 0x5a);
    assert_eq!(c.register(3), 0x50);
    // whatever is drawn, a zero mask gives zero
    let mut c = with_program(&[0x6377, 0xc300]);
    c.step(vec![]);
    c.step(vec![]);
    assert_eq!(c.register(3), 0);
}

#[test]
fn key_skips() {
    // V0 = 5; SKP V0 with key 5 held skips
    let mut c = with_program(&[0x6005, 0xe09e]);
    run(&mut c, 1);
    c.step_with(vec![key(Hotkey::Z)], false, 0);
    assert_eq!(c.program_counter(), 0x206);
    // SKNP V0 with no key held skips
    let mut c = with_program(&[0x6005, 0xe0a1]);
    run(&mut c, 2);
    assert_eq!(c.program_counter(), 0x206);
    // SKP V0 uses the low nibble of V0: 0x15 is key 5
    let mut c = with_program(&[0x6015, 0xe09e]);
    run(&mut c, 1);
    c.step_with(vec![key(Hotkey::Z)], false, 0);
    assert_eq!(c.program_counter(), 0x206);
    // the keypad is latched afresh every cycle
    let mut c = with_program(&[0x6005, 0xe09e]);
    c.step_with(vec![key(Hotkey::Z)], false, 0);
    c.step_with(vec![], false, 0);
    assert_eq!(c.program_counter(), 0x204);
}

#[test]
fn index_arithmetic() {
    // Fx29: digit sprite address
    let mut c = with_program(&[0x600a, 0xf029]);
    run(&mut c, 2);
    assert_eq!(c.index_register(), 50);
    // Fx1E adds Vx to I
    let mut c = with_program(&[0x6001, 0xa123, 0xf01e]);
    run(&mut c, 3);
    assert_eq!(c.index_register(), 0x124);
}

#[test]
fn unknown_opcode_is_ignored() {
    let mut c = with_program(&[0x5121, 0xe0ff, 0xf0ff, 0x800f]);
    let dirty = run(&mut c, 4);
    assert!(!dirty);
    assert_eq!(c.program_counter(), 0x208);
    for r in 0..16 {
        assert_eq!(c.register(r), 0);
    }
}

#[test]
fn every_word_keeps_pc_in_memory() {
    for v in [0x0000u16, 0x00e0, 0x00ee, 0x1fff, 0x2fff, 0x3000, 0x4000, 0xbfff, 0xffff, 0xd00f] {
        let mut c = with_program(&[v]);
        run(&mut c, 1);
        let pc = c.program_counter();
        assert!(pc < 0x1000);
        assert!(pc == 0x202 || pc == 0x204 || matches!(v >> 12, 0 | 1 | 2 | 0xb));
    }
}

#[test]
fn fetch_wraps_at_end_of_memory() {
    // jump to 0xfff: the word is read from 0xfff and 0x000
    let mut c = with_program(&[0x1fff]);
    run(&mut c, 1);
    assert_eq!(c.program_counter(), 0xfff);
    run(&mut c, 1);
    assert_eq!(c.opcode().value, 0x00f0);
    // 00F0 is SYS 0x0f0, a jump
    assert_eq!(c.program_counter(), 0x0f0);
}

#[test]
fn load_program_truncates() {
    let program: Vec<u8> = (0..5000u32).map(|b| (b % 251) as u8).collect();
    let mut c = ChipInterpreter::new();
    c.load_program(program);
    assert_eq!(c.read_byte(0x200), 0);
    assert_eq!(c.read_byte(0xfff), (0xdff % 251) as u8);
    assert_eq!(c.read_byte(0x000), 0xf0);
}

#[test]
fn ram_outside_written_region_is_kept() {
    let mut c = with_program(&[0x6001, 0xa200, 0xf055, 0x1206]);
    let before: Vec<u8> = (0..4096).map(|a| c.read_byte(a)).collect();
    run(&mut c, 3);
    for a in 0..4096 {
        if a != 0x200 {
            assert_eq!(c.read_byte(a), before[a], "address {:#x}", a);
        }
    }
    assert_eq!(c.read_byte(0x200), 0x01);
}
