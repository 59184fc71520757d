use vstd::prelude::*;

use crate::api::{ApiKind, GraphicProp, RECTS_X, RECTS_Y, WINDOW_MIN_H, WINDOW_MIN_W, MIN_CYCLES};
use crate::color::{preset_color, Color, ColorPreset};
use crate::event::{keys_of, Input};
use crate::interpreter::ChipInterpreter;
use crate::machine::{initial_model, step_model, write_bytes, ChipModel, PROGRAM_START, SCREEN_H, SCREEN_W};
use crate::rectangle::Rectangle;

verus! {

/// The window rectangle of pixel `i` when each pixel is `cw` by `ch`.
pub open spec fn pixel_rect(i: int, cw: u32, ch: u32) -> Rectangle {
    Rectangle {
        x: (((i % (SCREEN_W as int)) * cw) as u32) as i32,
        y: (((i / (SCREEN_W as int)) * ch) as u32) as i32,
        w: cw,
        h: ch,
    }
}

/// Lit pixels are white, the others black.
pub open spec fn pixel_color(p: u8) -> Color {
    if p & 1 == 1 {
        preset_color(ColorPreset::White)
    } else {
        preset_color(ColorPreset::Black)
    }
}

/// Build an `Emulator`
pub struct EmulatorBuilder {
    api_prop: GraphicProp,
    interpreter: ChipInterpreter,
    clock: u64,
}

impl EmulatorBuilder {
    /// The api asked for.
    pub closed spec fn api(&self) -> ApiKind {
        self.api_prop.api
    }

    /// The window title asked for.
    pub closed spec fn title(&self) -> Seq<char> {
        self.api_prop.title@
    }

    /// The window size asked for.
    pub closed spec fn size(&self) -> (u32, u32) {
        self.api_prop.size
    }

    /// The state of the interpreter to run.
    pub closed spec fn machine(&self) -> ChipModel {
        self.interpreter@
    }

    /// The cycles per second asked for.
    pub closed spec fn clock(&self) -> u64 {
        self.clock
    }

    /// The interpreter to run is well formed.
    pub closed spec fn wf(&self) -> bool {
        self.interpreter.wf()
    }

    pub fn new() -> (r: Self)
        ensures
            r.wf(),
            r.api() == ApiKind::Sdl,
            r.title() == "chip8"@,
            r.size() == (WINDOW_MIN_W, WINDOW_MIN_H),
            r.machine() == initial_model(),
            r.clock() == MIN_CYCLES,
    {
        Self::default()
    }

    /// Set the api type
    pub fn set_api(self, api_type: ApiKind) -> (r: Self)
        ensures
            r.api() == api_type,
            r.title() == self.title(),
            r.size() == self.size(),
            r.machine() == self.machine(),
            r.clock() == self.clock(),
            r.wf() == self.wf(),
    {
        let mut s = self;
        s.api_prop.api = api_type;
        s
    }

    /// Set the window title
    pub fn set_window_title(self, title: &str) -> (r: Self)
        ensures
            r.api() == self.api(),
            r.title() == title@,
            r.size() == self.size(),
            r.machine() == self.machine(),
            r.clock() == self.clock(),
            r.wf() == self.wf(),
    {
        let mut s = self;
        s.api_prop.title = title.to_owned();
        s
    }

    /// Set the window size
    pub fn set_window_size(self, size: (u32, u32)) -> (r: Self)
        ensures
            r.api() == self.api(),
            r.title() == self.title(),
            r.size() == size,
            r.machine() == self.machine(),
            r.clock() == self.clock(),
            r.wf() == self.wf(),
    {
        let mut s = self;
        s.api_prop.size = size;
        s
    }

    /// Set the interpreter
    pub fn set_interpreter(self, interpreter: ChipInterpreter) -> (r: Self)
        ensures
            r.api() == self.api(),
            r.title() == self.title(),
            r.size() == self.size(),
            r.machine() == interpreter@,
            r.clock() == self.clock(),
            r.wf() == interpreter.wf(),
    {
        let mut s = self;
        s.interpreter = interpreter;
        s
    }

    /// Set the clock, in cycles per second
    pub fn set_clock(self, clock: u64) -> (r: Self)
        ensures
            r.api() == self.api(),
            r.title() == self.title(),
            r.size() == self.size(),
            r.machine() == self.machine(),
            r.clock() == clock,
            r.wf() == self.wf(),
    {
        let mut s = self;
        s.clock = clock;
        s
    }

    /// Build the emulator
    pub fn build(self) -> (r: Emulator)
        ensures
            r.window().api == self.api(),
            r.window().title@ == self.title(),
            r.window().size == self.size(),
            r.machine() == self.machine(),
            r.cycles() == self.clock(),
            r.wf() == self.wf(),
    {
        Emulator { api_prop: self.api_prop, interpreter: self.interpreter, clock: self.clock }
    }
}

impl Default for EmulatorBuilder {
    fn default() -> (r: Self)
        ensures
            r.wf(),
            r.api() == ApiKind::Sdl,
            r.title() == "chip8"@,
            r.size() == (WINDOW_MIN_W, WINDOW_MIN_H),
            r.machine() == initial_model(),
            r.clock() == MIN_CYCLES,
    {
        Self {
            api_prop: GraphicProp {
                api: ApiKind::Sdl,
                title: "chip8".to_owned(),
                size: (WINDOW_MIN_W, WINDOW_MIN_H),
            },
            interpreter: ChipInterpreter::new(),
            clock: MIN_CYCLES,
        }
    }
}

/// An interpreter with the settings of the window it is shown in
pub struct Emulator {
    /// Chip8 interpreter
    interpreter: ChipInterpreter,
    /// Window settings
    api_prop: GraphicProp,
    /// Cycles per second (hz)
    pub clock: u64,
}

impl Emulator {
    /// The window settings.
    pub closed spec fn window(&self) -> GraphicProp {
        self.api_prop
    }

    /// The state of the interpreter.
    pub closed spec fn machine(&self) -> ChipModel {
        self.interpreter@
    }

    /// Cycles per second.
    pub closed spec fn cycles(&self) -> u64 {
        self.clock
    }

    /// The interpreter is well formed.
    pub closed spec fn wf(&self) -> bool {
        self.interpreter.wf()
    }

    /// Load program raw bytes
    pub fn load(&mut self, program: Vec<u8>)
        requires
            old(self).wf(),
        ensures
            final(self).wf(),
            final(self).machine() == (ChipModel {
                ram: write_bytes(old(self).machine().ram, program@, PROGRAM_START as int),
                ..old(self).machine()
            }),
            final(self).cycles() == old(self).cycles(),
            final(self).window() == old(self).window(),
    {
        self.interpreter.load_program(program);
    }

    /// The window settings
    pub fn api_prop(&self) -> (r: &GraphicProp)
        ensures
            *r == self.window(),
    {
        &self.api_prop
    }

    /// The interpreter
    pub fn interpreter(&self) -> (r: &ChipInterpreter)
        ensures
            r@ == self.machine(),
            self.wf() ==> r.wf(),
    {
        &self.interpreter
    }

    /// Run one cycle; returns whether the screen changed
    pub fn step(&mut self, inputs: Vec<Input>) -> (dirty: bool)
        requires
            old(self).wf(),
        ensures
            final(self).wf(),
            exists|fired: bool, random: u8|
                final(self).machine() == #[trigger] step_model(old(self).machine(), keys_of(inputs@), fired, random),
            dirty == final(self).machine().display,
            final(self).cycles() == old(self).cycles(),
            final(self).window() == old(self).window(),
    {
        self.interpreter.step(inputs)
    }

    /// Whether the beeper sounds
    pub fn beep(&self) -> (r: bool)
        ensures
            r == (self.machine().sound_timer > 0),
    {
        self.interpreter.beep()
    }

    /// Microseconds between two cycles
    pub fn cycle_period_micros(&self) -> (r: u64)
        requires
            self.cycles() > 0,
        ensures
            r == 1_000_000int / (self.cycles() as int),
    {
        1_000_000 / self.clock
    }

    /// The rectangles that draw the screen on a window of `window_size`,
    /// one per pixel in row-major order, with its color
    pub fn frame(&self, window_size: (u32, u32)) -> (r: Vec<(Rectangle, Color)>)
        requires
            self.wf(),
        ensures
            r@.len() == self.machine().vram.len(),
            forall|i: int|
                0 <= i < r@.len() ==> #[trigger] r@[i] == (
                    pixel_rect(i, window_size.0 / (RECTS_X as u32), window_size.1 / (RECTS_Y as u32)),
                    pixel_color(self.machine().vram[i]),
                ),
    {
        let vram = self.interpreter.vram().value();
        let cw = window_size.0 / RECTS_X;
        let ch = window_size.1 / RECTS_Y;
        let mut rects: Vec<(Rectangle, Color)> = Vec::new();
        let mut i: usize = 0;
        while i < vram.len()
            invariant
                i <= vram@.len(),
                vram@ == self.machine().vram,
                vram@.len() == SCREEN_W * SCREEN_H,
                cw == window_size.0 / (RECTS_X as u32),
                ch == window_size.1 / (RECTS_Y as u32),
                rects@.len() == i,
                forall|j: int|
                    0 <= j < i ==> #[trigger] rects@[j] == (pixel_rect(j, cw, ch), pixel_color(vram@[j])),
            decreases vram@.len() - i,
        {
            let col = (i % SCREEN_W) as u32;
            let row = (i / SCREEN_W) as u32;
            proof {
                assert(col * cw <= u32::MAX) by (nonlinear_arith)
                    requires
                        col < 64,
                        cw == window_size.0 / 64,
                ;
                assert(row * ch <= u32::MAX) by (nonlinear_arith)
                    requires
                        row < 32,
                        ch == window_size.1 / 32,
                ;
            }
            let x = (col * cw) as i32;
            let y = (row * ch) as i32;
            let rect = Rectangle::from((x, y, cw, ch));
            let color = if vram[i] & 1 == 1 {
                Color::from(ColorPreset::White)
            } else {
                Color::from(ColorPreset::Black)
            };
            rects.push((rect, color));
            i = i + 1;
        }
        rects
    }
}

} // verus!
