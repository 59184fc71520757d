use vstd::prelude::*;

use crate::opcode::{op_family, op_kk, op_n, op_nnn, op_x, op_y};
use crate::pc::{advance, ProgramCountState};

verus! {

/// Bytes of memory
pub const RAM_SIZE: usize = 4096;
/// Address where programs are loaded
pub const PROGRAM_START: usize = 0x200;
/// Largest program that fits in memory
pub const MAX_PROGRAM_SIZE: usize = RAM_SIZE - PROGRAM_START;
/// Number of general registers, and of stack slots
pub const REGISTERS: usize = 16;
/// Index of the flag register VF
pub const FLAG: usize = 0xf;
/// Screen width, in pixels
pub const SCREEN_W: usize = 64;
/// Screen height, in pixels
pub const SCREEN_H: usize = 32;
/// Bytes of the built-in hexadecimal font
pub const FONT_SIZE: usize = 80;

/// The built-in font: one 4x5 sprite for each hexadecimal digit, five bytes
/// each, digit `d` at offset `5 * d`.
pub open spec fn font() -> Seq<u8> {
    seq![
        0xf0, 0x90, 0x90, 0x90, 0xf0,  // 0
        0x20, 0x60, 0x20, 0x20, 0x70,  // 1
        0xf0, 0x10, 0xf0, 0x80, 0xf0,  // 2
        0xf0, 0x10, 0xf0, 0x10, 0xf0,  // 3
        0x90, 0x90, 0xf0, 0x10, 0x10,  // 4
        0xf0, 0x80, 0xf0, 0x10, 0xf0,  // 5
        0xf0, 0x80, 0xf0, 0x90, 0xf0,  // 6
        0xf0, 0x10, 0x20, 0x40, 0x40,  // 7
        0xf0, 0x90, 0xf0, 0x90, 0xf0,  // 8
        0xf0, 0x90, 0xf0, 0x10, 0xf0,  // 9
        0xf0, 0x90, 0xf0, 0x90, 0x90,  // A
        0xe0, 0x90, 0xe0, 0x90, 0xe0,  // B
        0xf0, 0x80, 0x80, 0x80, 0xf0,  // C
        0xe0, 0x90, 0x90, 0x90, 0xe0,  // D
        0xf0, 0x80, 0xf0, 0x80, 0xf0,  // E
        0xf0, 0x80, 0xf0, 0x80, 0x80,  // F
    ]
}

/// The whole observable state of the machine.
pub struct ChipModel {
    /// Memory, one byte per address
    pub ram: Seq<u8>,
    /// The last instruction word fetched
    pub opcode: u16,
    /// Registers V0..VF
    pub v: Seq<u8>,
    /// Index register I
    pub i: u16,
    /// Program counter
    pub pc: u16,
    /// How the program counter moves at the end of the current cycle
    pub transition: ProgramCountState,
    /// Pixels, row-major, 64 per row
    pub vram: Seq<u8>,
    /// Delay timer
    pub delay_timer: u8,
    /// Sound timer
    pub sound_timer: u8,
    /// Return addresses
    pub stack: Seq<u16>,
    /// Next free stack slot
    pub sp: u16,
    /// Keypad, 1 for a key held down
    pub key: Seq<u8>,
    /// Waiting for a key press to store in Vx of the last opcode
    pub waiting: bool,
    /// The screen changed during the current cycle
    pub display: bool,
    /// Fx55 and Fx65 advance I
    pub original_load: bool,
    /// 8xy6 and 8xyE shift Vy
    pub original_shift: bool,
}

/// Address `a` wrapped into memory.
pub open spec fn wrap_addr(a: int) -> int {
    a % (RAM_SIZE as int)
}

/// The sizes of every part of the machine are right, addresses are in
/// range, and each pixel is 0 or 1.
pub open spec fn model_wf(s: ChipModel) -> bool {
    &&& s.ram.len() == RAM_SIZE
    &&& s.v.len() == REGISTERS
    &&& s.stack.len() == REGISTERS
    &&& s.key.len() == REGISTERS
    &&& s.vram.len() == SCREEN_W * SCREEN_H
    &&& s.pc < RAM_SIZE
    &&& s.sp < REGISTERS
    &&& forall|a: int| 0 <= a < s.vram.len() ==> #[trigger] s.vram[a] <= 1
}

/// The state right after construction.
pub open spec fn initial_model() -> ChipModel {
    ChipModel {
        ram: Seq::new(RAM_SIZE as nat, |a: int| if a < FONT_SIZE { font()[a] } else { 0u8 }),
        opcode: 0,
        v: Seq::new(REGISTERS as nat, |_k: int| 0u8),
        i: 0,
        pc: PROGRAM_START as u16,
        transition: ProgramCountState::Next,
        vram: Seq::new((SCREEN_W * SCREEN_H) as nat, |_a: int| 0u8),
        delay_timer: 0,
        sound_timer: 0,
        stack: Seq::new(REGISTERS as nat, |_k: int| 0u16),
        sp: 0,
        key: Seq::new(REGISTERS as nat, |_k: int| 0u8),
        waiting: false,
        display: false,
        original_load: false,
        original_shift: false,
    }
}

/// Memory after `bytes` are copied to it from address `at` on; what would
/// fall past the end of memory is dropped.
pub open spec fn write_bytes(ram: Seq<u8>, bytes: Seq<u8>, at: int) -> Seq<u8> {
    Seq::new(ram.len(), |a: int| if at <= a < at + bytes.len() { bytes[a - at] } else { ram[a] })
}

/// The instruction word stored at `pc`, high byte first.
pub open spec fn fetch(ram: Seq<u8>, pc: u16) -> u16 {
    (ram[wrap_addr(pc as int)] as int * 256 + ram[wrap_addr(pc + 1)] as int) as u16
}

/// Register Vx of the current opcode.
pub open spec fn vx(s: ChipModel) -> u8 {
    s.v[op_x(s.opcode) as int]
}

/// Register Vy of the current opcode.
pub open spec fn vy(s: ChipModel) -> u8 {
    s.v[op_y(s.opcode) as int]
}

/// `s` with Vx of the current opcode set to `b`.
pub open spec fn with_vx(s: ChipModel, b: u8) -> ChipModel {
    ChipModel { v: s.v.update(op_x(s.opcode) as int, b), ..s }
}

/// `s` with VF set to `b`, after any other register write.
pub open spec fn with_flag(s: ChipModel, b: u8) -> ChipModel {
    ChipModel { v: s.v.update(FLAG as int, b), ..s }
}

/// `s` with the program counter moving by `t` at the end of the cycle.
pub open spec fn with_transition(s: ChipModel, t: ProgramCountState) -> ChipModel {
    ChipModel { transition: t, ..s }
}

/// `s` skipping the next instruction when `cond` holds.
pub open spec fn skip_if(s: ChipModel, cond: bool) -> ChipModel {
    if cond {
        with_transition(s, ProgramCountState::Skip)
    } else {
        s
    }
}

/// 1 when `b` holds, else 0.
pub open spec fn bit_of(b: bool) -> u8 {
    if b {
        1
    } else {
        0
    }
}

/// 00E0: clear the screen.
pub open spec fn spec_cls(s: ChipModel) -> ChipModel {
    ChipModel { vram: Seq::new(s.vram.len(), |_a: int| 0u8), display: true, ..s }
}

/// 00EE: pop a return address. The stack pointer wraps around its 16 slots.
pub open spec fn spec_ret(s: ChipModel) -> ChipModel {
    let sp = ((s.sp + 15) % (REGISTERS as int)) as u16;
    ChipModel { sp, transition: ProgramCountState::Jump(s.stack[sp as int]), ..s }
}

/// 1nnn (and 0nnn): jump to nnn.
pub open spec fn spec_jp(s: ChipModel) -> ChipModel {
    with_transition(s, ProgramCountState::Jump(op_nnn(s.opcode)))
}

/// 2nnn: push the address of the next instruction and jump to nnn. The stack
/// pointer wraps around its 16 slots.
pub open spec fn spec_call(s: ChipModel) -> ChipModel {
    ChipModel {
        stack: s.stack.update(s.sp as int, (s.pc + 2) as u16),
        sp: ((s.sp + 1) % (REGISTERS as int)) as u16,
        transition: ProgramCountState::Jump(op_nnn(s.opcode)),
        ..s
    }
}

/// Bit `c` from the left of sprite row `r`, the row read from memory at `i + r`.
pub open spec fn sprite_bit(ram: Seq<u8>, i: u16, r: int, c: int) -> u8 {
    (ram[wrap_addr(i + r)] >> ((7 - c) as u8)) & 1
}

/// The sprite column that lands on screen column `px` when drawn from `sx`.
pub open spec fn sprite_col(sx: int, px: int) -> int {
    (px - sx) % (SCREEN_W as int)
}

/// The sprite row that lands on screen row `py` when drawn from `sy`.
pub open spec fn sprite_row(sy: int, py: int) -> int {
    (py - sy) % (SCREEN_H as int)
}

/// Whether sprite bit `(r, c)` comes before `(r0, c0)` in drawing order.
pub open spec fn drawn_before(r0: int, c0: int, r: int, c: int) -> bool {
    r < r0 || (r == r0 && c < c0)
}

/// The screen after the bits of an `n`-row sprite up to `(r0, c0)` in drawing
/// order are XORed onto it from `(sx, sy)`, wrapping on both axes.
pub open spec fn draw_upto(
    vram: Seq<u8>,
    ram: Seq<u8>,
    i: u16,
    sx: int,
    sy: int,
    n: int,
    r0: int,
    c0: int,
) -> Seq<u8> {
    Seq::new(
        vram.len(),
        |a: int|
            {
                let r = sprite_row(sy, a / (SCREEN_W as int));
                let c = sprite_col(sx, a % (SCREEN_W as int));
                if r < n && c < 8 && drawn_before(r0, c0, r, c) {
                    vram[a] ^ sprite_bit(ram, i, r, c)
                } else {
                    vram[a]
                }
            },
    )
}

/// The screen after a whole `n`-row sprite is XORed onto it from `(sx, sy)`.
pub open spec fn draw_sprite(vram: Seq<u8>, ram: Seq<u8>, i: u16, sx: int, sy: int, n: int) -> Seq<u8> {
    draw_upto(vram, ram, i, sx, sy, n, n, 0)
}

/// Whether a set bit of the sprite among those before `(r0, c0)` lands on a
/// lit pixel.
pub open spec fn collides_upto(
    vram: Seq<u8>,
    ram: Seq<u8>,
    i: u16,
    sx: int,
    sy: int,
    n: int,
    r0: int,
    c0: int,
) -> bool {
    exists|r: int, c: int|
        0 <= r < n && 0 <= c < 8 && drawn_before(r0, c0, r, c) && #[trigger] sprite_bit(ram, i, r, c)
            == 1 && vram[((sy + r) % (SCREEN_H as int)) * (SCREEN_W as int) + (sx + c) % (
        SCREEN_W as int)] == 1
}

/// Whether drawing a whole `n`-row sprite from `(sx, sy)` erases a pixel.
pub open spec fn collides(vram: Seq<u8>, ram: Seq<u8>, i: u16, sx: int, sy: int, n: int) -> bool {
    collides_upto(vram, ram, i, sx, sy, n, n, 0)
}

/// Dxyn: XOR the n-byte sprite at I onto the screen at (Vx mod 64, Vy mod 32);
/// VF tells whether a lit pixel was erased.
pub open spec fn spec_drw(s: ChipModel) -> ChipModel {
    let sx = (vx(s) % (SCREEN_W as u8)) as int;
    let sy = (vy(s) % (SCREEN_H as u8)) as int;
    let n = op_n(s.opcode) as int;
    ChipModel {
        vram: draw_sprite(s.vram, s.ram, s.i, sx, sy, n),
        v: s.v.update(FLAG as int, bit_of(collides(s.vram, s.ram, s.i, sx, sy, n))),
        display: true,
        ..s
    }
}

/// I after Fx55 or Fx65: advanced by x + 1 under the original semantics only.
pub open spec fn loaded_index(s: ChipModel) -> u16 {
    if s.original_load {
        ((s.i + op_x(s.opcode) + 1) % 0x10000) as u16
    } else {
        s.i
    }
}

/// Fx33: the decimal digits of Vx at I, I + 1 and I + 2.
pub open spec fn spec_ld_b_vx(s: ChipModel) -> ChipModel {
    let b = vx(s);
    ChipModel {
        ram: s.ram.update(wrap_addr(s.i as int), b / 100).update(
            wrap_addr(s.i + 1),
            (b / 10) % 10,
        ).update(wrap_addr(s.i + 2), b % 10),
        ..s
    }
}

/// Fx55: V0..=Vx stored from I on.
pub open spec fn spec_ld_i_vx(s: ChipModel) -> ChipModel {
    let x = op_x(s.opcode) as int;
    ChipModel {
        ram: Seq::new(
            s.ram.len(),
            |a: int|
                {
                    let k = wrap_addr(a - s.i);
                    if k <= x {
                        s.v[k]
                    } else {
                        s.ram[a]
                    }
                },
        ),
        i: loaded_index(s),
        ..s
    }
}

/// Fx65: V0..=Vx loaded from I on.
pub open spec fn spec_ld_vx_i(s: ChipModel) -> ChipModel {
    let x = op_x(s.opcode) as int;
    ChipModel {
        v: Seq::new(
            s.v.len(),
            |k: int|
                if k <= x {
                    s.ram[wrap_addr(s.i + k)]
                } else {
                    s.v[k]
                },
        ),
        i: loaded_index(s),
        ..s
    }
}

/// 8xy6: shift right; VF takes the bit shifted out of Vx.
pub open spec fn spec_shr(s: ChipModel) -> ChipModel {
    let src = if s.original_shift {
        vy(s)
    } else {
        vx(s)
    };
    with_flag(with_vx(s, src >> 1u8), vx(s) & 1)
}

/// 8xyE: shift left; VF takes the bit shifted out of Vx.
pub open spec fn spec_shl(s: ChipModel) -> ChipModel {
    let src = if s.original_shift {
        vy(s)
    } else {
        vx(s)
    };
    with_flag(with_vx(s, src << 1u8), vx(s) >> 7u8)
}

/// The effect of the current opcode of `s`, `random` standing for the byte that
/// Cxkk draws. Words that name no instruction change nothing.
#[verifier::opaque]
pub open spec fn execute(s: ChipModel, random: u8) -> ChipModel {
    let op = s.opcode;
    let f = op_family(op);
    let x = op_x(op);
    let y = op_y(op);
    let n = op_n(op);
    let kk = op_kk(op);
    let a = vx(s);
    let b = vy(s);
    if f == 0 && x == 0 && y == 0xe && n == 0 {
        spec_cls(s)
    } else if f == 0 && x == 0 && y == 0xe && n == 0xe {
        spec_ret(s)
    } else if f == 0 || f == 1 {
        spec_jp(s)
    } else if f == 2 {
        spec_call(s)
    } else if f == 3 {
        skip_if(s, a == kk)
    } else if f == 4 {
        skip_if(s, a != kk)
    } else if f == 5 && n == 0 {
        skip_if(s, a == b)
    } else if f == 6 {
        with_vx(s, kk)
    } else if f == 7 {
        with_vx(s, ((a + kk) % 256) as u8)
    } else if f == 8 && n == 0 {
        with_vx(s, b)
    } else if f == 8 && n == 1 {
        with_vx(s, a | b)
    } else if f == 8 && n == 2 {
        with_vx(s, a & b)
    } else if f == 8 && n == 3 {
        with_vx(s, a ^ b)
    } else if f == 8 && n == 4 {
        with_flag(with_vx(s, ((a + b) % 256) as u8), bit_of(a + b > 0xff))
    } else if f == 8 && n == 5 {
        with_flag(with_vx(s, ((a - b) % 256) as u8), bit_of(a > b))
    } else if f == 8 && n == 6 {
        spec_shr(s)
    } else if f == 8 && n == 7 {
        with_flag(with_vx(s, ((b - a) % 256) as u8), bit_of(b > a))
    } else if f == 8 && n == 0xe {
        spec_shl(s)
    } else if f == 9 && n == 0 {
        skip_if(s, a != b)
    } else if f == 0xa {
        ChipModel { i: op_nnn(op), ..s }
    } else if f == 0xb {
        with_transition(s, ProgramCountState::Jump(((op_nnn(op) + s.v[0]) % 0x1000) as u16))
    } else if f == 0xc {
        with_vx(s, random & kk)
    } else if f == 0xd {
        spec_drw(s)
    } else if f == 0xe && y == 9 && n == 0xe {
        skip_if(s, s.key[(a & 0x0f) as int] == 1)
    } else if f == 0xe && y == 0xa && n == 1 {
        skip_if(s, s.key[(a & 0x0f) as int] == 0)
    } else if f == 0xf && y == 0 && n == 7 {
        with_vx(s, s.delay_timer)
    } else if f == 0xf && y == 1 && n == 5 {
        ChipModel { delay_timer: a, ..s }
    } else if f == 0xf && y == 1 && n == 8 {
        ChipModel { sound_timer: a, ..s }
    } else if f == 0xf && y == 1 && n == 0xe {
        ChipModel { i: ((s.i + a) % 0x10000) as u16, ..s }
    } else if f == 0xf && y == 2 && n == 9 {
        ChipModel { i: (a * 5) as u16, ..s }
    } else if f == 0xf && y == 3 && n == 3 {
        spec_ld_b_vx(s)
    } else if f == 0xf && y == 0 && n == 0xa {
        ChipModel { waiting: true, ..s }
    } else if f == 0xf && y == 5 && n == 5 {
        spec_ld_i_vx(s)
    } else if f == 0xf && y == 6 && n == 5 {
        spec_ld_vx_i(s)
    } else {
        s
    }
}

/// The keypad with exactly the keys in `keys` held down.
pub open spec fn latch_keys(keys: Seq<usize>) -> Seq<u8> {
    Seq::new(REGISTERS as nat, |k: int| bit_of(keys.contains(k as usize)))
}

/// Both timers one step lower, where not yet zero, when the 60 Hz clock fired.
pub open spec fn tick_timers(s: ChipModel, fired: bool) -> ChipModel {
    if fired {
        ChipModel {
            delay_timer: if s.delay_timer > 0 {
                (s.delay_timer - 1) as u8
            } else {
                0
            },
            sound_timer: if s.sound_timer > 0 {
                (s.sound_timer - 1) as u8
            } else {
                0
            },
            ..s
        }
    } else {
        s
    }
}

/// One cycle: with the keys in `keys` held down, `fired` telling whether the
/// timer clock fired and `random` the byte that Cxkk would draw.
///
/// The keypad is latched afresh. While waiting for a key, the first key held
/// is stored in Vx of the opcode that started the wait and nothing else
/// happens. Otherwise the timers tick, the word at PC is fetched and executed,
/// and the program counter moves as the instruction said.
pub open spec fn step_model(s: ChipModel, keys: Seq<usize>, fired: bool, random: u8) -> ChipModel {
    let latched = ChipModel {
        key: latch_keys(keys),
        transition: ProgramCountState::Next,
        display: false,
        ..s
    };
    if s.waiting {
        if keys.len() > 0 {
            ChipModel { waiting: false, ..with_vx(latched, keys[0] as u8) }
        } else {
            latched
        }
    } else {
        let ticked = tick_timers(latched, fired);
        let fetched = ChipModel { opcode: fetch(ticked.ram, ticked.pc), ..ticked };
        let executed = execute(fetched, random);
        ChipModel { pc: advance(executed.pc, executed.transition), ..executed }
    }
}

/// Column `c` of a sprite drawn from `sx` lands on a screen column from which
/// `c` is recovered.
pub proof fn lemma_sprite_col(sx: int, c: int)
    requires
        0 <= sx < SCREEN_W,
        0 <= c < 8,
    ensures
        sprite_col(sx, (sx + c) % (SCREEN_W as int)) == c,
{
}

/// Row `r` of a sprite drawn from `sy` lands on a screen row from which `r`
/// is recovered.
pub proof fn lemma_sprite_row(sy: int, r: int)
    requires
        0 <= sy < SCREEN_H,
        0 <= r < 16,
    ensures
        sprite_row(sy, (sy + r) % (SCREEN_H as int)) == r,
{
}

/// A pixel index splits into its column and row, and is rebuilt from the
/// sprite position that lands on it.
pub proof fn lemma_pixel_split(sx: int, sy: int, a: int)
    requires
        0 <= sx < SCREEN_W,
        0 <= sy < SCREEN_H,
        0 <= a < SCREEN_W * SCREEN_H,
    ensures
        0 <= a % (SCREEN_W as int) < SCREEN_W,
        0 <= a / (SCREEN_W as int) < SCREEN_H,
        a == ((sy + sprite_row(sy, a / (SCREEN_W as int))) % (SCREEN_H as int)) * (SCREEN_W as int)
            + (sx + sprite_col(sx, a % (SCREEN_W as int))) % (SCREEN_W as int),
{
    let px = a % 64;
    let py = a / 64;
    assert(a == py * 64 + px);
    assert((sx + sprite_col(sx, px)) % 64 == px);
    assert((sy + sprite_row(sy, py)) % 32 == py);
}

/// The pixel at column `x`, row `y` of the screen has index `y * 64 + x`, and
/// splits back into them.
pub proof fn lemma_pixel_join(x: int, y: int)
    requires
        0 <= x < SCREEN_W,
        0 <= y < SCREEN_H,
    ensures
        0 <= y * (SCREEN_W as int) + x < SCREEN_W * SCREEN_H,
        (y * (SCREEN_W as int) + x) % (SCREEN_W as int) == x,
        (y * (SCREEN_W as int) + x) / (SCREEN_W as int) == y,
{
}

} // verus!
