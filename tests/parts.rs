use toychip::api::{clamp_cycles, window_height, window_width, ApiKind, RECTS_X, RECTS_Y};
use toychip::clock::{Clock, ClockState};
use toychip::color::{Color, ColorPreset};
use toychip::emulator::EmulatorBuilder;
use toychip::error::ChipError;
use toychip::event::{Hotkey, Input, Mouse, MouseClick};
use toychip::interpreter::ChipInterpreter;
use toychip::opcode::Opcode;
use toychip::pc::{ProgramCount, ProgramCountState};
use toychip::rectangle::Rectangle;
use toychip::types::InterpreterType;
use toychip::vram::Vram;

#[test]
fn opcode_fields() {
    let op = Opcode::new(0xd12a);
    assert_eq!(op.nnn(), 0x12a);
    assert_eq!(op.n(), 0xa);
    assert_eq!(op.x(), 0x1);
    assert_eq!(op.y(), 0x2);
    assert_eq!(op.kk(), 0x2a);
    assert_eq!(op.nibbles(), (0xd, 0x1, 0x2, 0xa));
    assert_eq!(Opcode::from(0x00e0u16).nibbles(), (0, 0, 0xe, 0));
}

#[test]
fn vram_get_put_clear() {
    let mut v = Vram::new(4, 3, 0);
    assert_eq!(v.w(), 4);
    assert_eq!(v.h(), 3);
    assert_eq!(v.index(1, 2), 9);
    v.put(1, 2, 1);
    assert_eq!(v.get(1, 2), 1);
    assert_eq!(v.value()[9], 1);
    v.clear();
    assert!(v.value().iter().all(|p| *p == 0));
    let d = Vram::default();
    assert_eq!(d.w(), RECTS_X as usize);
    assert_eq!(d.h(), RECTS_Y as usize);
    assert_eq!(Vram::new(2, 2, 7).value(), vec![7, 7, 7, 7]);
}

#[test]
fn program_counter_transitions() {
    let mut pc = ProgramCount::from(0x200);
    pc.step();
    assert_eq!(pc.value, 0x202);
    pc.set_state(ProgramCountState::Skip);
    pc.step();
    assert_eq!(pc.value, 0x206);
    pc.set_state(ProgramCountState::Jump(0x345));
    pc.step();
    assert_eq!(pc.value, 0x345);
    pc.reset_state();
    assert_eq!(pc.state, ProgramCountState::Next);
    let mut end = ProgramCount { value: 0xffe, state: ProgramCountState::Skip };
    end.step();
    assert_eq!(end.value, 0x002);
}

#[test]
fn clock_interval() {
    let mut c = Clock::new(1000);
    assert_eq!(c.state_at(999), ClockState::Progress);
    assert_eq!(c.state_at(1000), ClockState::Finish);
    assert!(!c.try_reset_at(10));
    assert!(c.try_reset_at(1000));
    assert_eq!(c.cooldown, 1000);
    let mut z = Clock::new(0);
    assert!(z.try_reset());
    assert_eq!(z.state(), ClockState::Finish);
    let mut long = Clock::new(u64::MAX);
    assert!(!long.try_reset());
    long.reset();
    assert_eq!(long.state(), ClockState::Progress);
}

#[test]
fn keymap() {
    let inputs = vec![
        Input::Hotkey(Hotkey::Num1),
        Input::Hotkey(Hotkey::Kp4),
        Input::Mouse(Mouse::new(MouseClick::Right, 3, 4)),
        Input::Hotkey(Hotkey::A),
        Input::Hotkey(Hotkey::Return),
        Input::Hotkey(Hotkey::R),
        Input::Hotkey(Hotkey::Q),
        Input::Hotkey(Hotkey::F),
        Input::Hotkey(Hotkey::W),
        Input::Hotkey(Hotkey::X),
        Input::Hotkey(Hotkey::C),
        Input::Hotkey(Hotkey::V),
    ];
    assert_eq!(Input::to_keys(inputs), vec![0x1, 0xc, 0x4, 0xd, 0x7, 0xe, 0xa, 0x0, 0xb, 0xf]);
    assert_eq!(Input::to_keys(vec![]), Vec::<usize>::new());
    assert_eq!(Input::Hotkey(Hotkey::S).hex_key(), Some(0x8));
    assert_eq!(Input::Hotkey(Hotkey::E).hex_key(), Some(0x6));
    assert_eq!(Input::Hotkey(Hotkey::D).hex_key(), Some(0x9));
    assert_eq!(Input::Hotkey(Hotkey::Num2).hex_key(), Some(0x2));
    assert_eq!(Input::Hotkey(Hotkey::Kp3).hex_key(), Some(0x3));
    assert_eq!(Input::Hotkey(Hotkey::Y).hex_key(), None);
    let m = Mouse::new(MouseClick::Left, -1, 7);
    assert_eq!(m.click, MouseClick::Left);
    assert_eq!((m.x, m.y), (-1, 7));
}

#[test]
fn api_and_interpreter_names() {
    assert_eq!(ApiKind::parse("sdl").ok(), Some(ApiKind::Sdl));
    assert_eq!("sfml".parse::<ApiKind>().ok(), Some(ApiKind::Sfml));
    assert!(matches!(ApiKind::parse("opengl"), Err(ChipError::UseApi)));
    assert_eq!(ApiKind::default(), ApiKind::Sdl);
    assert_eq!("original".parse::<InterpreterType>().ok(), Some(InterpreterType::Original));
    assert!(matches!(InterpreterType::parse("modern"), Err(ChipError::UseIntepreter)));
    assert_eq!(InterpreterType::default().build().program_counter(), 0x200);
}

#[test]
fn error_variants() {
    let all = [
        ChipError::ReadFile(String::from("missing")),
        ChipError::LoadProgram,
        ChipError::UseApi,
        ChipError::UseIntepreter,
        ChipError::Unknown,
    ];
    assert!(matches!(&all[0], ChipError::ReadFile(m) if m == "missing"));
    assert_eq!(all.len(), 5);
}

#[test]
fn cli_defaults() {
    assert_eq!(clamp_cycles(None), 500);
    assert_eq!(clamp_cycles(Some(100)), 500);
    assert_eq!(clamp_cycles(Some(1200)), 1200);
    assert_eq!(clamp_cycles(Some(5000)), 2000);
    assert_eq!(window_width(None), 1280);
    assert_eq!(window_height(None), 640);
    assert_eq!(window_width(Some(300)), 300);
    assert_eq!(window_height(Some(200)), 200);
}

#[test]
fn colors_and_rectangles() {
    assert_eq!(Color::from(ColorPreset::White), Color { r: 255, g: 255, b: 255, a: 255 });
    assert_eq!(Color::from(ColorPreset::Grey), Color { r: 127, g: 127, b: 127, a: 255 });
    assert_eq!(Color::from(ColorPreset::Transparent), Color { r: 0, g: 0, b: 0, a: 0 });
    assert_eq!(Color::default(), Color { r: 0, g: 0, b: 0, a: 255 });
    assert_eq!(Color::from((1, 2, 3)), Color { r: 1, g: 2, b: 3, a: 255 });
    assert_eq!(Rectangle::default(), Rectangle { x: 0, y: 0, w: 0, h: 0 });
    assert_eq!(Rectangle::from((1, -2, 3, 4)), Rectangle { x: 1, y: -2, w: 3, h: 4 });
}

#[test]
fn emulator_builder_and_frame() {
    let mut interpreter = ChipInterpreter::new();
    interpreter.set_original_load(true);
    let mut emu = EmulatorBuilder::new()
        .set_api(ApiKind::Sfml)
        .set_window_title("toychip")
        .set_window_size((1280, 640))
        .set_interpreter(interpreter)
        .set_clock(1000)
        .build();
    assert_eq!(emu.api_prop().api, ApiKind::Sfml);
    assert_eq!(emu.api_prop().title, "toychip");
    assert_eq!(emu.api_prop().size, (1280, 640));
    assert_eq!(emu.clock, 1000);
    assert_eq!(emu.cycle_period_micros(), 1000);
    // draw the font digit 0 at (0, 0)
    emu.load(vec![0xa0, 0x00, 0xd0, 0x15]);
    assert!(!emu.step(vec![]));
    assert!(emu.step(vec![]));
    assert!(!emu.beep());
    let frame = emu.frame((1280, 640));
    assert_eq!(frame.len(), 2048);
    assert_eq!(frame[0].0, Rectangle { x: 0, y: 0, w: 20, h: 20 });
    assert_eq!(frame[0].1, Color::from(ColorPreset::White));
    assert_eq!(frame[65].0, Rectangle { x: 20, y: 20, w: 20, h: 20 });
    assert_eq!(frame[65].1, Color::from(ColorPreset::Black));
    assert_eq!(frame[64 + 3].1, Color::from(ColorPreset::White));
    let small = emu.frame((100, 50));
    assert_eq!(small[2047].0, Rectangle { x: 63, y: 31, w: 1, h: 1 });
    let defaults = EmulatorBuilder::new().build();
    assert_eq!(defaults.api_prop().api, ApiKind::Sdl);
    assert_eq!(defaults.api_prop().title, "chip8");
    assert_eq!(defaults.api_prop().size, (320, 160));
    assert_eq!(defaults.clock, 500);
}
