use vstd::prelude::*;

use crate::clock::Clock;
use crate::event::{keys_of, Input};
use crate::machine::{
    bit_of, collides_upto, draw_sprite, draw_upto, drawn_before, execute, fetch, font,
    initial_model, latch_keys, lemma_pixel_join, lemma_pixel_split, lemma_sprite_col,
    lemma_sprite_row, model_wf, skip_if, spec_call, spec_cls, spec_drw, spec_jp, spec_ld_b_vx,
    spec_ld_i_vx, spec_ld_vx_i, spec_ret, spec_shl, spec_shr, sprite_bit, step_model, tick_timers,
    vx, vy, with_flag, with_transition, with_vx, wrap_addr, write_bytes, ChipModel, FLAG, FONT_SIZE,
    PROGRAM_START, RAM_SIZE, REGISTERS, SCREEN_H, SCREEN_W,
};
use crate::opcode::{op_kk, op_n, op_nnn, op_x, Opcode};
use crate::pc::{ProgramCount, ProgramCountState, ADDRESS_SPACE, OPCODE_SIZE};
use crate::vram::Vram;

verus! {

/// Relies on `rand::random`, which draws from the thread-local generator;
/// nothing is promised of the value drawn.
pub assume_specification<T>[ rand::random::<T> ]() -> (r: T)
    where
        rand::distributions::Standard: rand::distributions::Distribution<T>,
;

/// Microseconds between two ticks of the 60 Hz timers
pub const TIMER_PERIOD_MICROS: u64 = 1_000_000 / 60;

/// The built-in font as bytes.
fn font_bytes() -> (r: [u8; FONT_SIZE])
    ensures
        r@ == font(),
{
    let r: [u8; FONT_SIZE] = [
        0xf0, 0x90, 0x90, 0x90, 0xf0,  // 0
        0x20, 0x60, 0x20, 0x20, 0x70,  // 1
        0xf0, 0x10, 0xf0, 0x80, 0xf0,  // 2
        0xf0, 0x10, 0xf0, 0x10, 0xf0,  // 3
        0x90, 0x90, 0xf0, 0x10, 0x10,  // 4
        0xf0, 0x80, 0xf0, 0x10, 0xf0,  // 5
        0xf0, 0x80, 0xf0, 0x90, 0xf0,  // 6
        0xf0, 0x10, 0x20, 0x40, 0x40,  // 7
        0xf0, 0x90, 0xf0, 0x90, 0xf0,  // 8
        0xf0, 0x90, 0xf0, 0x10, 0xf0,  // 9
        0xf0, 0x90, 0xf0, 0x90, 0x90,  // A
        0xe0, 0x90, 0xe0, 0x90, 0xe0,  // B
        0xf0, 0x80, 0x80, 0x80, 0xf0,  // C
        0xe0, 0x90, 0x90, 0x90, 0xe0,  // D
        0xf0, 0x80, 0xf0, 0x80, 0xf0,  // E
        0xf0, 0x80, 0xf0, 0x80, 0x80,  // F
    ];
    assert(r@ =~= font());
    r
}

/// Whether the interpreter runs or waits for a key press
#[derive(Debug, Clone, Copy, PartialEq, Eq, Structural)]
pub enum InterpreterState {
    Running,
    WaitForKey,
}

/// The CHIP-8 interpreter
pub struct ChipInterpreter {
    /// Memory
    ///
    /// 0x000-0x04f - Built-in 4x5 pixel font (0-f)
    /// 0x050-0x1ff - Reserved
    /// 0x200-0xfff - Program ROM and RAM
    ram: [u8; RAM_SIZE],
    /// Current opcode
    opcode: Opcode,
    /// CPU Registers
    v: [u8; REGISTERS],
    /// Index register
    i: u16,
    /// Program count
    pc: ProgramCount,
    /// Graphics
    vram: Vram,
    /// Delay timer
    delay_timer: u8,
    /// Sound timer
    sound_timer: u8,
    /// Stack
    stack: [u16; REGISTERS],
    /// Stack pointer
    sp: u16,
    /// Keys
    key: [u8; REGISTERS],
    /// Interpreter state
    state: InterpreterState,
    /// Controlling the screen display
    display: bool,
    /// Load semantic
    original_load: bool,
    /// Shift semantic
    original_shift: bool,
    /// Timers clock
    timers_clock: Clock,
}

impl View for ChipInterpreter {
    type V = ChipModel;

    closed spec fn view(&self) -> ChipModel {
        ChipModel {
            ram: self.ram@,
            opcode: self.opcode.value,
            v: self.v@,
            i: self.i,
            pc: self.pc.value,
            transition: self.pc.state,
            vram: self.vram@,
            delay_timer: self.delay_timer,
            sound_timer: self.sound_timer,
            stack: self.stack@,
            sp: self.sp,
            key: self.key@,
            waiting: self.state == InterpreterState::WaitForKey,
            display: self.display,
            original_load: self.original_load,
            original_shift: self.original_shift,
        }
    }
}

impl ChipInterpreter {
    /// The interpreter is well formed: its model is, and the screen is 64 by 32.
    pub closed spec fn wf(&self) -> bool {
        &&& model_wf(self@)
        &&& self.vram.wf()
        &&& self.vram.width() == SCREEN_W
        &&& self.vram.height() == SCREEN_H
    }

    pub fn new() -> (r: Self)
        ensures
            r.wf(),
            r@ == initial_model(),
    {
        let mut interpreter = Self::default();
        let font = font_bytes();
        interpreter.write_any(&font, 0);
        proof {
            assert(interpreter@.ram =~= initial_model().ram);
            assert(interpreter@.v =~= initial_model().v);
            assert(interpreter@.stack =~= initial_model().stack);
            assert(interpreter@.key =~= initial_model().key);
        }
        interpreter
    }

    /// Write a byte at address `index`, wrapped into memory
    pub fn write_byte_at(&mut self, byte: u8, index: usize)
        requires
            old(self).wf(),
        ensures
            final(self).wf(),
            final(self)@ == (ChipModel {
                ram: old(self)@.ram.update(wrap_addr(index as int), byte),
                ..old(self)@
            }),
    {
        self.ram[index % RAM_SIZE] = byte;
    }

    /// Copy `bytes` to memory from address `index` on, dropping what would
    /// fall past the end of memory
    pub fn write_any(&mut self, bytes: &[u8], index: usize)
        requires
            old(self).wf(),
            index <= RAM_SIZE,
        ensures
            final(self).wf(),
            final(self)@ == (ChipModel {
                ram: write_bytes(old(self)@.ram, bytes@, index as int),
                ..old(self)@
            }),
    {
        let mut k: usize = 0;
        let n: usize = if bytes.len() < RAM_SIZE - index {
            bytes.len()
        } else {
            RAM_SIZE - index
        };
        proof {
            assert(write_bytes(old(self)@.ram, bytes@.subrange(0, 0), index as int) =~= self@.ram);
        }
        while k < n
            invariant
                k <= n,
                n <= bytes@.len(),
                index + n <= RAM_SIZE,
                self.wf(),
                self@ == (ChipModel {
                    ram: write_bytes(old(self)@.ram, bytes@.subrange(0, k as int), index as int),
                    ..old(self)@
                }),
            decreases n - k,
        {
            self.ram[index + k] = bytes[k];
            k = k + 1;
            proof {
                assert(self@.ram =~= write_bytes(
                    old(self)@.ram,
                    bytes@.subrange(0, k as int),
                    index as int,
                ));
            }
        }
        proof {
            assert(self@.ram =~= write_bytes(old(self)@.ram, bytes@, index as int));
            assert(self@ == (ChipModel {
                ram: write_bytes(old(self)@.ram, bytes@, index as int),
                ..old(self)@
            }));
        }
    }

    /// The byte at address `index`, wrapped into memory
    pub fn read_byte(&self, index: usize) -> (r: u8)
        requires
            self.wf(),
        ensures
            r == self@.ram[wrap_addr(index as int)],
    {
        self.ram[index % RAM_SIZE]
    }

    /// The big-endian word at address `index`, wrapped into memory
    pub fn read_short(&self, index: usize) -> (r: u16)
        requires
            self.wf(),
        ensures
            index < RAM_SIZE ==> r == fetch(self@.ram, index as u16),
    {
        let a = index % RAM_SIZE;
        let hi = self.read_byte(a) as u16;
        let lo = self.read_byte(a + 1) as u16;
        proof {
            assert(hi << 8u16 | lo == hi * 256 + lo) by (bit_vector)
                requires
                    hi < 256,
                    lo < 256,
            ;
        }
        hi << 8 | lo
    }

    /// Load a program at 0x200; bytes past the end of memory are dropped
    pub fn load_program(&mut self, program: Vec<u8>)
        requires
            old(self).wf(),
        ensures
            final(self).wf(),
            final(self)@ == (ChipModel {
                ram: write_bytes(old(self)@.ram, program@, PROGRAM_START as int),
                ..old(self)@
            }),
    {
        self.write_any(program.as_slice(), PROGRAM_START);
    }

    /// Whether the beeper sounds
    pub fn beep(&self) -> (r: bool)
        ensures
            r == (self@.sound_timer > 0),
    {
        self.sound_timer > 0
    }

    /// Use the original semantic for Fx55 and Fx65
    pub fn set_original_load(&mut self, value: bool)
        requires
            old(self).wf(),
        ensures
            final(self).wf(),
            final(self)@ == (ChipModel { original_load: value, ..old(self)@ }),
    {
        self.original_load = value;
    }

    /// Use the original semantic for 8xy6 and 8xyE
    pub fn set_original_shift(&mut self, value: bool)
        requires
            old(self).wf(),
        ensures
            final(self).wf(),
            final(self)@ == (ChipModel { original_shift: value, ..old(self)@ }),
    {
        self.original_shift = value;
    }
}

impl Default for ChipInterpreter {
    /// Everything zero, the program counter at 0x200, and no font loaded.
    fn default() -> (r: Self)
        ensures
            r.wf(),
            r@ == (ChipModel { ram: Seq::new(RAM_SIZE as nat, |_a: int| 0u8), ..initial_model() }),
    {
        let r = Self {
            ram: [0; RAM_SIZE],
            opcode: Opcode::new(0),
            v: [0; REGISTERS],
            i: 0,
            pc: ProgramCount { value: PROGRAM_START as u16, state: ProgramCountState::Next },
            vram: Vram::default(),
            delay_timer: 0,
            sound_timer: 0,
            stack: [0; REGISTERS],
            sp: 0,
            key: [0; REGISTERS],
            state: InterpreterState::Running,
            display: false,
            original_load: false,
            original_shift: false,
            timers_clock: Clock::new(TIMER_PERIOD_MICROS),
        };
        proof {
            assert(r@.ram =~= Seq::new(RAM_SIZE as nat, |_a: int| 0u8));
            assert(r@.v =~= initial_model().v);
            assert(r@.stack =~= initial_model().stack);
            assert(r@.key =~= initial_model().key);
        }
        r
    }
}


/// The instruction handlers. Each takes a well-formed interpreter whose
/// `opcode` holds the current instruction, and leaves it as the model says.
impl ChipInterpreter {
    /// CPU register at index `x`
    fn vx(&self) -> (r: u8)
        requires
            self.wf(),
        ensures
            r == vx(self@),
    {
        self.v[self.opcode.x() as usize]
    }

    /// CPU register at index `y`
    fn vy(&self) -> (r: u8)
        requires
            self.wf(),
        ensures
            r == vy(self@),
    {
        self.v[self.opcode.y() as usize]
    }

    /// Set the CPU register at index `x`
    fn set_vx(&mut self, byte: u8)
        requires
            old(self).wf(),
        ensures
            final(self).wf(),
            final(self)@ == with_vx(old(self)@, byte),
    {
        self.v[self.opcode.x() as usize] = byte;
    }

    /// Set the flag register VF
    fn set_flag(&mut self, byte: u8)
        requires
            old(self).wf(),
        ensures
            final(self).wf(),
            final(self)@ == with_flag(old(self)@, byte),
    {
        self.v[FLAG] = byte;
    }

    /// Move the program counter by `state` at the end of the cycle
    fn set_transition(&mut self, state: ProgramCountState)
        requires
            old(self).wf(),
        ensures
            final(self).wf(),
            final(self)@ == with_transition(old(self)@, state),
    {
        self.pc.set_state(state);
    }

    /// Skip the next instruction when `cond` holds
    fn skip_if(&mut self, cond: bool)
        requires
            old(self).wf(),
        ensures
            final(self).wf(),
            final(self)@ == skip_if(old(self)@, cond),
    {
        if cond {
            self.set_transition(ProgramCountState::Skip);
        }
    }

    /// 00E0 - CLS
    pub fn cls(&mut self)
        requires
            old(self).wf(),
        ensures
            final(self).wf(),
            final(self)@ == spec_cls(old(self)@),
    {
        self.vram.clear();
        self.display = true;
    }

    /// 00EE - RET
    pub fn ret(&mut self)
        requires
            old(self).wf(),
        ensures
            final(self).wf(),
            final(self)@ == spec_ret(old(self)@),
    {
        self.sp = (self.sp + 15) % (REGISTERS as u16);
        let state = ProgramCountState::Jump(self.stack[self.sp as usize]);
        self.pc.set_state(state);
    }

    /// 0nnn - SYS addr, treated as a jump
    pub fn sys(&mut self)
        requires
            old(self).wf(),
        ensures
            final(self).wf(),
            final(self)@ == spec_jp(old(self)@),
    {
        self.jp();
    }

    /// 1nnn - JP addr
    pub fn jp(&mut self)
        requires
            old(self).wf(),
        ensures
            final(self).wf(),
            final(self)@ == spec_jp(old(self)@),
    {
        let state = ProgramCountState::Jump(self.opcode.nnn());
        self.pc.set_state(state);
    }

    /// 2nnn - CALL addr
    pub fn call(&mut self)
        requires
            old(self).wf(),
        ensures
            final(self).wf(),
            final(self)@ == spec_call(old(self)@),
    {
        self.stack[self.sp as usize] = self.pc.value + OPCODE_SIZE;
        let state = ProgramCountState::Jump(self.opcode.nnn());
        self.pc.set_state(state);
        self.sp = (self.sp + 1) % (REGISTERS as u16);
    }

    /// 8xy4 - ADD Vx, Vy
    pub fn add_vx_vy(&mut self)
        requires
            old(self).wf(),
        ensures
            final(self).wf(),
            final(self)@ == with_flag(
                with_vx(old(self)@, ((vx(old(self)@) + vy(old(self)@)) % 256) as u8),
                bit_of(vx(old(self)@) + vy(old(self)@) > 0xff),
            ),
    {
        let sum = (self.vx() as u16) + (self.vy() as u16);
        self.set_vx((sum % 256) as u8);
        self.set_flag(if sum > 0xff { 1 } else { 0 });
    }

    /// 8xy5 - SUB Vx, Vy
    pub fn sub_vx_vy(&mut self)
        requires
            old(self).wf(),
        ensures
            final(self).wf(),
            final(self)@ == with_flag(
                with_vx(old(self)@, ((vx(old(self)@) - vy(old(self)@)) % 256) as u8),
                bit_of(vx(old(self)@) > vy(old(self)@)),
            ),
    {
        let vx = self.vx();
        let vy = self.vy();
        self.set_vx(vx.wrapping_sub(vy));
        self.set_flag(if vx > vy { 1 } else { 0 });
    }

    /// 8xy7 - SUBN Vx, Vy
    pub fn subn_vx_vy(&mut self)
        requires
            old(self).wf(),
        ensures
            final(self).wf(),
            final(self)@ == with_flag(
                with_vx(old(self)@, ((vy(old(self)@) - vx(old(self)@)) % 256) as u8),
                bit_of(vy(old(self)@) > vx(old(self)@)),
            ),
    {
        let vx = self.vx();
        let vy = self.vy();
        self.set_vx(vy.wrapping_sub(vx));
        self.set_flag(if vy > vx { 1 } else { 0 });
    }

    /// 8xy6 - SHR Vx {, Vy}
    pub fn shr_vx_vy(&mut self)
        requires
            old(self).wf(),
        ensures
            final(self).wf(),
            final(self)@ == spec_shr(old(self)@),
    {
        if self.original_shift {
            return self.shr_vx_vy_original();
        }
        let vx = self.vx();
        self.set_vx(vx >> 1);
        self.set_flag(vx & 1);
    }

    /// 8xy6 - SHR Vx, Vy: Vx = Vy >> 1
    pub fn shr_vx_vy_original(&mut self)
        requires
            old(self).wf(),
            old(self)@.original_shift,
        ensures
            final(self).wf(),
            final(self)@ == spec_shr(old(self)@),
    {
        let vx = self.vx();
        let vy = self.vy();
        self.set_vx(vy >> 1);
        self.set_flag(vx & 1);
    }

    /// 8xyE - SHL Vx {, Vy}
    pub fn shl_vx_vy(&mut self)
        requires
            old(self).wf(),
        ensures
            final(self).wf(),
            final(self)@ == spec_shl(old(self)@),
    {
        if self.original_shift {
            return self.shl_vx_vy_original();
        }
        let vx = self.vx();
        self.set_vx(vx << 1);
        self.set_flag(vx >> 7);
    }

    /// 8xyE - SHL Vx, Vy: Vx = Vy << 1
    pub fn shl_vx_vy_original(&mut self)
        requires
            old(self).wf(),
            old(self)@.original_shift,
        ensures
            final(self).wf(),
            final(self)@ == spec_shl(old(self)@),
    {
        let vx = self.vx();
        let vy = self.vy();
        self.set_vx(vy << 1);
        self.set_flag(vx >> 7);
    }

    /// Bnnn - JP V0, addr
    pub fn jp_v(&mut self)
        requires
            old(self).wf(),
        ensures
            final(self).wf(),
            final(self)@ == with_transition(
                old(self)@,
                ProgramCountState::Jump(((op_nnn(old(self)@.opcode) + old(self)@.v[0]) % 0x1000) as u16),
            ),
    {
        let addr = (self.opcode.nnn() + (self.v[0] as u16)) % ADDRESS_SPACE;
        self.set_transition(ProgramCountState::Jump(addr));
    }

    /// Cxkk - RND Vx, byte, with `random` the byte drawn
    pub fn rnd_vx_byte(&mut self, random: u8)
        requires
            old(self).wf(),
        ensures
            final(self).wf(),
            final(self)@ == with_vx(old(self)@, random & op_kk(old(self)@.opcode)),
    {
        let byte = random & self.opcode.kk();
        self.set_vx(byte);
    }

    /// Ex9E - SKP Vx
    pub fn skp_vx(&mut self)
        requires
            old(self).wf(),
        ensures
            final(self).wf(),
            final(self)@ == skip_if(old(self)@, old(self)@.key[(vx(old(self)@) & 0x0f) as int] == 1),
    {
        let x = self.vx();
        let k = x & 0x0f;
        proof {
            assert(k < 16) by (bit_vector)
                requires
                    k == x & 0x0f,
            ;
        }
        self.skip_if(self.key[k as usize] == 1);
    }

    /// ExA1 - SKNP Vx
    pub fn sknp_vx(&mut self)
        requires
            old(self).wf(),
        ensures
            final(self).wf(),
            final(self)@ == skip_if(old(self)@, old(self)@.key[(vx(old(self)@) & 0x0f) as int] == 0),
    {
        let x = self.vx();
        let k = x & 0x0f;
        proof {
            assert(k < 16) by (bit_vector)
                requires
                    k == x & 0x0f,
            ;
        }
        self.skip_if(self.key[k as usize] == 0);
    }

    /// Fx0A - LD Vx, K: wait for a key press
    pub fn ld_vx_k(&mut self)
        requires
            old(self).wf(),
        ensures
            final(self).wf(),
            final(self)@ == (ChipModel { waiting: true, ..old(self)@ }),
    {
        self.state = InterpreterState::WaitForKey;
    }

    /// Fx1E - ADD I, Vx
    pub fn add_i_vx(&mut self)
        requires
            old(self).wf(),
        ensures
            final(self).wf(),
            final(self)@ == (ChipModel {
                i: ((old(self)@.i + vx(old(self)@)) % 0x10000) as u16,
                ..old(self)@
            }),
    {
        self.i = ((self.i as u32 + self.vx() as u32) % 0x10000) as u16;
    }

    /// Fx29 - LD F, Vx: I = address of the font sprite for digit Vx
    pub fn ld_f_vx(&mut self)
        requires
            old(self).wf(),
        ensures
            final(self).wf(),
            final(self)@ == (ChipModel { i: (vx(old(self)@) * 5) as u16, ..old(self)@ }),
    {
        self.i = (self.vx() as u16) * 5;
    }

    /// Fx33 - LD B, Vx
    pub fn ld_b_vx(&mut self)
        requires
            old(self).wf(),
        ensures
            final(self).wf(),
            final(self)@ == spec_ld_b_vx(old(self)@),
    {
        let vx = self.vx();
        let i = self.i as usize;
        self.write_byte_at(vx / 100, i);
        self.write_byte_at((vx / 10) % 10, i + 1);
        self.write_byte_at(vx % 10, i + 2);
    }
}


/// The address `k` bytes after `i`, wrapped into memory, is `a` exactly when
/// `a` lies `k` bytes after `i`.
proof fn lemma_wrap_offset(i: int, k: int, a: int)
    requires
        0 <= k < RAM_SIZE,
        0 <= a < RAM_SIZE,
    ensures
        (wrap_addr(a - i) == k) <==> (a == wrap_addr(i + k)),
{
}

/// Memory once V0..V(k-1) are stored from `i` on.
spec fn stored_upto(ram: Seq<u8>, v: Seq<u8>, i: u16, k: int) -> Seq<u8> {
    Seq::new(
        ram.len(),
        |a: int|
            {
                let j = wrap_addr(a - i);
                if j < k {
                    v[j]
                } else {
                    ram[a]
                }
            },
    )
}

/// Registers once V0..V(k-1) are loaded from `i` on.
spec fn loaded_upto(ram: Seq<u8>, v: Seq<u8>, i: u16, k: int) -> Seq<u8> {
    Seq::new(v.len(), |j: int| if j < k { ram[wrap_addr(i + j)] } else { v[j] })
}

impl ChipInterpreter {
    /// Store V0..=Vx from I on, I left as it is
    fn store_registers(&mut self)
        requires
            old(self).wf(),
        ensures
            final(self).wf(),
            final(self)@ == (ChipModel {
                ram: spec_ld_i_vx(old(self)@).ram,
                ..old(self)@
            }),
    {
        let x = self.opcode.x() as usize;
        let base = self.i as usize;
        let mut k: usize = 0;
        proof {
            assert(stored_upto(old(self)@.ram, old(self)@.v, old(self)@.i, 0) =~= old(self)@.ram);
        }
        while k <= x
            invariant
                x == op_x(old(self)@.opcode),
                x < 16,
                k <= x + 1,
                base == old(self)@.i,
                self.wf(),
                self@ == (ChipModel {
                    ram: stored_upto(old(self)@.ram, old(self)@.v, old(self)@.i, k as int),
                    ..old(self)@
                }),
            decreases x + 1 - k,
        {
            let ghost before = self@.ram;
            self.write_byte_at(self.v[k], base + k);
            proof {
                assert forall|a: int| 0 <= a < RAM_SIZE implies #[trigger] self@.ram[a] == stored_upto(
                    old(self)@.ram,
                    old(self)@.v,
                    old(self)@.i,
                    k + 1,
                )[a] by {
                    lemma_wrap_offset(base as int, k as int, a);
                }
                assert(self@.ram =~= stored_upto(old(self)@.ram, old(self)@.v, old(self)@.i, k + 1));
            }
            k = k + 1;
        }
        proof {
            assert(self@.ram =~= spec_ld_i_vx(old(self)@).ram);
        }
    }

    /// Load V0..=Vx from I on, I left as it is
    fn load_registers(&mut self)
        requires
            old(self).wf(),
        ensures
            final(self).wf(),
            final(self)@ == (ChipModel {
                v: spec_ld_vx_i(old(self)@).v,
                ..old(self)@
            }),
    {
        let x = self.opcode.x() as usize;
        let base = self.i as usize;
        let mut k: usize = 0;
        proof {
            assert(loaded_upto(old(self)@.ram, old(self)@.v, old(self)@.i, 0) =~= old(self)@.v);
        }
        while k <= x
            invariant
                x == op_x(old(self)@.opcode),
                x < 16,
                k <= x + 1,
                base == old(self)@.i,
                self.wf(),
                self@ == (ChipModel {
                    v: loaded_upto(old(self)@.ram, old(self)@.v, old(self)@.i, k as int),
                    ..old(self)@
                }),
            decreases x + 1 - k,
        {
            self.v[k] = self.read_byte(base + k);
            proof {
                assert(self@.v =~= loaded_upto(old(self)@.ram, old(self)@.v, old(self)@.i, k + 1));
            }
            k = k + 1;
        }
        proof {
            assert(self@.v =~= spec_ld_vx_i(old(self)@).v);
        }
    }

    /// Fx55 - LD [I], Vx
    pub fn ld_i_vx(&mut self)
        requires
            old(self).wf(),
        ensures
            final(self).wf(),
            final(self)@ == spec_ld_i_vx(old(self)@),
    {
        if self.original_load {
            return self.ld_i_vx_original();
        }
        self.store_registers();
    }

    /// Fx55 - LD [I], Vx, advancing I past the bytes written
    pub fn ld_i_vx_original(&mut self)
        requires
            old(self).wf(),
            old(self)@.original_load,
        ensures
            final(self).wf(),
            final(self)@ == spec_ld_i_vx(old(self)@),
    {
        self.store_registers();
        self.i = ((self.i as u32 + self.opcode.x() as u32 + 1) % 0x10000) as u16;
    }

    /// Fx65 - LD Vx, [I]
    pub fn ld_vx_i(&mut self)
        requires
            old(self).wf(),
        ensures
            final(self).wf(),
            final(self)@ == spec_ld_vx_i(old(self)@),
    {
        if self.original_load {
            return self.ld_vx_i_original();
        }
        self.load_registers();
    }

    /// Fx65 - LD Vx, [I], advancing I past the bytes read
    pub fn ld_vx_i_original(&mut self)
        requires
            old(self).wf(),
            old(self)@.original_load,
        ensures
            final(self).wf(),
            final(self)@ == spec_ld_vx_i(old(self)@),
    {
        self.load_registers();
        self.i = ((self.i as u32 + self.opcode.x() as u32 + 1) % 0x10000) as u16;
    }
}


impl ChipInterpreter {
    /// Dxyn - DRW Vx, Vy, nibble
    pub fn drw_vx_vy_n(&mut self)
        requires
            old(self).wf(),
        ensures
            final(self).wf(),
            final(self)@ == spec_drw(old(self)@),
    {
        let ghost s0 = self@;
        let sx = (self.vx() % (SCREEN_W as u8)) as usize;
        let sy = (self.vy() % (SCREEN_H as u8)) as usize;
        let n = self.opcode.n() as usize;
        let mut hit = false;
        let mut r: usize = 0;
        proof {
            assert(draw_upto(s0.vram, s0.ram, s0.i, sx as int, sy as int, n as int, 0, 0) =~= s0.vram);
        }
        while r < n
            invariant
                r <= n,
                n == op_n(s0.opcode),
                n < 16,
                sx < SCREEN_W,
                sy < SCREEN_H,
                sx == vx(s0) % (SCREEN_W as u8),
                sy == vy(s0) % (SCREEN_H as u8),
                self.wf(),
                self@ == (ChipModel {
                    vram: draw_upto(s0.vram, s0.ram, s0.i, sx as int, sy as int, n as int, r as int, 0),
                    ..s0
                }),
                hit == collides_upto(s0.vram, s0.ram, s0.i, sx as int, sy as int, n as int, r as int, 0),
            decreases n - r,
        {
            let row = self.read_byte(self.i as usize + r);
            let mut c: usize = 0;
            while c < 8
                invariant
                    r < n,
                    c <= 8,
                    n == op_n(s0.opcode),
                    n < 16,
                    sx < SCREEN_W,
                    sy < SCREEN_H,
                    row == s0.ram[wrap_addr(s0.i + r)],
                    self.wf(),
                    self@ == (ChipModel {
                        vram: draw_upto(s0.vram, s0.ram, s0.i, sx as int, sy as int, n as int, r as int, c as int),
                        ..s0
                    }),
                    hit == collides_upto(s0.vram, s0.ram, s0.i, sx as int, sy as int, n as int, r as int, c as int),
                decreases 8 - c,
            {
                let x = (sx + c) % SCREEN_W;
                let y = (sy + r) % SCREEN_H;
                let shift: u8 = 7 - c as u8;
                let color = (row >> shift) & 1;
                let pixel = self.vram.get(x, y);
                let ghost a0 = y * (SCREEN_W as int) + x;
                proof {
                    lemma_pixel_join(x as int, y as int);
                    lemma_sprite_col(sx as int, c as int);
                    lemma_sprite_row(sy as int, r as int);
                    assert(color == sprite_bit(s0.ram, s0.i, r as int, c as int));
                    assert(pixel == s0.vram[a0]);
                    assert(color <= 1) by (bit_vector)
                        requires
                            color == (row >> shift) & 1,
                    ;
                }
                if color == 1 && pixel == 1 {
                    hit = true;
                }
                let ghost before = self@.vram;
                self.vram.put(x, y, pixel ^ color);
                proof {
                    let vram0 = s0.vram;
                    assert(pixel <= 1);
                    assert(pixel ^ color <= 1) by (bit_vector)
                        requires
                            pixel <= 1,
                            color <= 1,
                    ;
                    assert forall|a: int| 0 <= a < SCREEN_W * SCREEN_H implies #[trigger] self@.vram[a]
                        == draw_upto(vram0, s0.ram, s0.i, sx as int, sy as int, n as int, r as int, c + 1)[a] by {
                        lemma_pixel_split(sx as int, sy as int, a);
                    }
                    assert(self@.vram =~= draw_upto(vram0, s0.ram, s0.i, sx as int, sy as int, n as int, r as int, c + 1));
                    let lo = collides_upto(vram0, s0.ram, s0.i, sx as int, sy as int, n as int, r as int, c as int);
                    let hi = collides_upto(vram0, s0.ram, s0.i, sx as int, sy as int, n as int, r as int, c + 1);
                    if hi && !lo {
                        let (rr, cc) = choose|rr: int, cc: int|
                            0 <= rr < n && 0 <= cc < 8 && drawn_before(r as int, c + 1, rr, cc)
                                && #[trigger] sprite_bit(s0.ram, s0.i, rr, cc) == 1
                                && vram0[((sy + rr) % (SCREEN_H as int)) * (SCREEN_W as int)
                                    + (sx + cc) % (SCREEN_W as int)] == 1;
                        assert(rr == r && cc == c);
                    }
                    if color == 1 && pixel == 1 {
                        assert(sprite_bit(s0.ram, s0.i, r as int, c as int) == 1);
                        assert(hi);
                    }
                    assert forall|a: int| 0 <= a < SCREEN_W * SCREEN_H implies #[trigger] self@.vram[a] <= 1 by {
                        if a != a0 {
                            assert(self@.vram[a] == before[a]);
                        }
                    }
                }
                c = c + 1;
            }
            proof {
                assert(draw_upto(s0.vram, s0.ram, s0.i, sx as int, sy as int, n as int, r as int, 8)
                    =~= draw_upto(s0.vram, s0.ram, s0.i, sx as int, sy as int, n as int, r + 1, 0));
                let p = collides_upto(s0.vram, s0.ram, s0.i, sx as int, sy as int, n as int, r as int, 8);
                let q = collides_upto(s0.vram, s0.ram, s0.i, sx as int, sy as int, n as int, r + 1, 0);
                if q {
                    let (rr, cc) = choose|rr: int, cc: int|
                        0 <= rr < n && 0 <= cc < 8 && drawn_before(r + 1, 0, rr, cc)
                            && #[trigger] sprite_bit(s0.ram, s0.i, rr, cc) == 1
                            && s0.vram[((sy + rr) % (SCREEN_H as int)) * (SCREEN_W as int)
                                + (sx + cc) % (SCREEN_W as int)] == 1;
                    assert(drawn_before(r as int, 8, rr, cc));
                }
            }
            r = r + 1;
        }
        self.v[FLAG] = if hit { 1 } else { 0 };
        self.display = true;
        proof {
            assert(self@.vram == draw_sprite(s0.vram, s0.ram, s0.i, sx as int, sy as int, n as int));
        }
    }
}


impl ChipInterpreter {
    /// Reset keys
    fn reset_keys(&mut self)
        requires
            old(self).wf(),
        ensures
            final(self).wf(),
            final(self)@ == (ChipModel { key: latch_keys(Seq::empty()), ..old(self)@ }),
    {
        let mut k: usize = 0;
        while k < REGISTERS
            invariant
                k <= REGISTERS,
                self.wf(),
                self@ == (ChipModel { key: self@.key, ..old(self)@ }),
                forall|j: int| 0 <= j < k ==> self@.key[j] == 0,
            decreases REGISTERS - k,
        {
            self.key[k] = 0;
            k = k + 1;
        }
        proof {
            assert(self@.key =~= latch_keys(Seq::empty()));
        }
    }

    /// Hold down the keypad keys in `keys`, on a keypad with all keys up
    fn assign_keys(&mut self, keys: &Vec<usize>)
        requires
            old(self).wf(),
            old(self)@.key == latch_keys(Seq::empty()),
            forall|j: int| 0 <= j < keys@.len() ==> #[trigger] keys@[j] < 16,
        ensures
            final(self).wf(),
            final(self)@ == (ChipModel { key: latch_keys(keys@), ..old(self)@ }),
    {
        let mut j: usize = 0;
        proof {
            assert(keys@.subrange(0, 0) =~= Seq::<usize>::empty());
        }
        while j < keys.len()
            invariant
                j <= keys@.len(),
                forall|t: int| 0 <= t < keys@.len() ==> #[trigger] keys@[t] < 16,
                self.wf(),
                self@ == (ChipModel { key: latch_keys(keys@.subrange(0, j as int)), ..old(self)@ }),
            decreases keys@.len() - j,
        {
            let index = keys[j];
            self.key[index] = 1;
            proof {
                let done = keys@.subrange(0, j as int);
                let next = keys@.subrange(0, j + 1);
                assert(next =~= done.push(index));
                assert forall|k: int| 0 <= k < 16 implies #[trigger] next.contains(k as usize) == (
                done.contains(k as usize) || k == index) by {
                    if next.contains(k as usize) {
                        let t = choose|t: int| 0 <= t < next.len() && next[t] == k as usize;
                        if t < j {
                            assert(done[t] == k as usize);
                        }
                    }
                    if done.contains(k as usize) {
                        let t = choose|t: int| 0 <= t < done.len() && done[t] == k as usize;
                        assert(next[t] == k as usize);
                    }
                    if k == index {
                        assert(next[j as int] == index);
                    }
                }
                assert(self@.key =~= latch_keys(next));
            }
            j = j + 1;
        }
        proof {
            assert(keys@.subrange(0, keys@.len() as int) =~= keys@);
        }
    }

    /// Lower both timers by one, where not yet zero, when the 60 Hz clock `fired`
    pub fn timers_tick(&mut self, fired: bool)
        requires
            old(self).wf(),
        ensures
            final(self).wf(),
            final(self)@ == tick_timers(old(self)@, fired),
    {
        if !fired {
            return;
        }
        if self.delay_timer > 0 {
            self.delay_timer -= 1;
        }
        if self.sound_timer > 0 {
            self.sound_timer -= 1;
        }
    }

    /// Execute the current opcode, `random` standing for the byte that Cxkk draws
    pub fn execute(&mut self, random: u8)
        requires
            old(self).wf(),
        ensures
            final(self).wf(),
            final(self)@ == execute(old(self)@, random),
    {
        proof {
            reveal(execute);
        }
        match self.opcode.nibbles() {
            (0x00, 0x00, 0x0e, 0x00) => self.cls(),
            (0x00, 0x00, 0x0e, 0x0e) => self.ret(),
            (0x00, _, _, _) => self.sys(),
            (0x01, _, _, _) => self.jp(),
            (0x02, _, _, _) => self.call(),
            (0x03, _, _, _) => self.skip_if(self.vx() == self.opcode.kk()),
            (0x04, _, _, _) => self.skip_if(self.vx() != self.opcode.kk()),
            (0x05, _, _, 0x00) => self.skip_if(self.vx() == self.vy()),
            (0x06, _, _, _) => self.set_vx(self.opcode.kk()),
            (0x07, _, _, _) => self.set_vx(self.vx().wrapping_add(self.opcode.kk())),
            (0x08, _, _, 0x00) => self.set_vx(self.vy()),
            (0x08, _, _, 0x01) => self.set_vx(self.vx() | self.vy()),
            (0x08, _, _, 0x02) => self.set_vx(self.vx() & self.vy()),
            (0x08, _, _, 0x03) => self.set_vx(self.vx() ^ self.vy()),
            (0x08, _, _, 0x04) => self.add_vx_vy(),
            (0x08, _, _, 0x05) => self.sub_vx_vy(),
            (0x08, _, _, 0x06) => self.shr_vx_vy(),
            (0x08, _, _, 0x07) => self.subn_vx_vy(),
            (0x08, _, _, 0x0e) => self.shl_vx_vy(),
            (0x09, _, _, 0x00) => self.skip_if(self.vx() != self.vy()),
            (0x0a, _, _, _) => {
                self.i = self.opcode.nnn();
            },
            (0x0b, _, _, _) => self.jp_v(),
            (0x0c, _, _, _) => self.rnd_vx_byte(random),
            (0x0d, _, _, _) => self.drw_vx_vy_n(),
            (0x0e, _, 0x09, 0x0e) => self.skp_vx(),
            (0x0e, _, 0x0a, 0x01) => self.sknp_vx(),
            (0x0f, _, 0x00, 0x07) => self.set_vx(self.delay_timer),
            (0x0f, _, 0x01, 0x05) => {
                self.delay_timer = self.vx();
            },
            (0x0f, _, 0x01, 0x08) => {
                self.sound_timer = self.vx();
            },
            (0x0f, _, 0x01, 0x0e) => self.add_i_vx(),
            (0x0f, _, 0x02, 0x09) => self.ld_f_vx(),
            (0x0f, _, 0x03, 0x03) => self.ld_b_vx(),
            (0x0f, _, 0x00, 0x0a) => self.ld_vx_k(),
            (0x0f, _, 0x05, 0x05) => self.ld_i_vx(),
            (0x0f, _, 0x06, 0x05) => self.ld_vx_i(),
            (_, _, _, _) => {},
        }
    }

    /// One cycle, with `timer_fired` telling whether the 60 Hz clock fired and
    /// `random` the byte that Cxkk would draw. Returns whether the screen
    /// changed.
    pub fn step_with(&mut self, inputs: Vec<Input>, timer_fired: bool, random: u8) -> (dirty: bool)
        requires
            old(self).wf(),
        ensures
            final(self).wf(),
            final(self)@ == step_model(old(self)@, keys_of(inputs@), timer_fired, random),
            dirty == final(self)@.display,
    {
        let keys = Input::to_keys(inputs);

        // Reset the program counter and screen display
        self.pc.reset_state();
        self.display = false;

        // Latch the keypad afresh
        self.reset_keys();
        self.assign_keys(&keys);

        // Waiting for a key press (Fx0A)
        if self.state == InterpreterState::WaitForKey {
            if keys.len() > 0 {
                self.set_vx(keys[0] as u8);
                self.state = InterpreterState::Running;
            }
            return self.display;
        }

        self.timers_tick(timer_fired);

        // Fetch
        self.opcode = Opcode::new(self.read_short(self.pc.value as usize));

        self.execute(random);

        // Update the program counter
        self.pc.step();

        self.display
    }
}


impl ChipInterpreter {
    /// One cycle: the keys held down in `inputs` are latched and, unless the
    /// interpreter waits for a key, the timers tick when the 60 Hz clock fires
    /// and one instruction is executed. Returns whether the screen changed.
    ///
    /// The clock tick and the byte drawn by Cxkk come from the clock and the random
    /// generator; whatever they gave, the cycle is the one `step_with` makes.
    pub fn step(&mut self, inputs: Vec<Input>) -> (dirty: bool)
        requires
            old(self).wf(),
        ensures
            final(self).wf(),
            exists|fired: bool, random: u8|
                final(self)@ == #[trigger] step_model(old(self)@, keys_of(inputs@), fired, random),
            dirty == final(self)@.display,
    {
        let fired = if self.state == InterpreterState::Running {
            self.timers_clock.try_reset()
        } else {
            false
        };
        let random = rand::random::<u8>();
        self.step_with(inputs, fired, random)
    }

    /// Returns the screen
    pub fn vram(&self) -> (r: Vram)
        requires
            self.wf(),
        ensures
            r.wf(),
            r.width() == SCREEN_W,
            r.height() == SCREEN_H,
            r@ == self@.vram,
    {
        self.vram.snapshot()
    }

    /// Register V`index`
    pub fn register(&self, index: usize) -> (r: u8)
        requires
            index < REGISTERS,
        ensures
            r == self@.v[index as int],
    {
        self.v[index]
    }

    /// The index register I
    pub fn index_register(&self) -> (r: u16)
        ensures
            r == self@.i,
    {
        self.i
    }

    /// The program counter
    pub fn program_counter(&self) -> (r: u16)
        ensures
            r == self@.pc,
    {
        self.pc.value
    }

    /// The stack pointer
    pub fn stack_pointer(&self) -> (r: u16)
        ensures
            r == self@.sp,
    {
        self.sp
    }

    /// The delay timer
    pub fn delay_timer(&self) -> (r: u8)
        ensures
            r == self@.delay_timer,
    {
        self.delay_timer
    }

    /// The sound timer
    pub fn sound_timer(&self) -> (r: u8)
        ensures
            r == self@.sound_timer,
    {
        self.sound_timer
    }

    /// Whether the interpreter runs or waits for a key press
    pub fn state(&self) -> (r: InterpreterState)
        ensures
            (r == InterpreterState::WaitForKey) == self@.waiting,
    {
        self.state
    }

    /// The last instruction fetched
    pub fn opcode(&self) -> (r: Opcode)
        ensures
            r.value == self@.opcode,
    {
        self.opcode
    }
}

} // verus!
