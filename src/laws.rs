use vstd::prelude::*;

use crate::event::keys_of;
use crate::event::Input;
use crate::machine::{
    bit_of, collides, execute, fetch, latch_keys, spec_ld_b_vx, spec_ld_i_vx, tick_timers, lemma_pixel_join, lemma_sprite_col, lemma_sprite_row, model_wf, sprite_bit, sprite_col, sprite_row, spec_drw,
    step_model, vx, vy, wrap_addr, ChipModel, FLAG, RAM_SIZE, SCREEN_H, SCREEN_W,
};
use crate::opcode::{lemma_fields_bounded, op_family, op_n, op_x, op_y};
use crate::pc::{advance, ProgramCountState};

verus! {

/// Whether `v` is Fx33, which writes three bytes at I.
pub open spec fn is_bcd(v: u16) -> bool {
    op_family(v) == 0xf && op_y(v) == 3 && op_n(v) == 3
}

/// Whether `v` is Fx55, which writes V0..=Vx at I.
pub open spec fn is_store(v: u16) -> bool {
    op_family(v) == 0xf && op_y(v) == 5 && op_n(v) == 5
}

/// Whether `v` is Fx65, which reads V0..=Vx from I.
pub open spec fn is_load(v: u16) -> bool {
    op_family(v) == 0xf && op_y(v) == 6 && op_n(v) == 5
}

/// Whether `v` sets a timer: Fx15 or Fx18.
pub open spec fn sets_timer(v: u16) -> bool {
    op_family(v) == 0xf && op_y(v) == 1 && (op_n(v) == 5 || op_n(v) == 8)
}

/// Whether `v` may send the program counter elsewhere: SYS, RET, JP, CALL
/// and JP V0.
pub open spec fn may_jump(v: u16) -> bool {
    let f = op_family(v);
    (f == 0 && v != 0x00e0) || f == 1 || f == 2 || f == 0xb
}

/// Whether `v` may skip the next instruction: SE, SNE, SKP and SKNP.
pub open spec fn may_skip(v: u16) -> bool {
    let f = op_family(v);
    f == 3 || f == 4 || f == 5 || f == 9 || f == 0xe
}

/// Whether the cycle run from `s` may write memory address `a`: only Fx33
/// (at I, I + 1 and I + 2) and Fx55 (at I up to I + x) write memory.
pub open spec fn cycle_writes(s: ChipModel, a: int) -> bool {
    let v = fetch(s.ram, s.pc);
    !s.waiting && ((is_bcd(v) && wrap_addr(a - s.i) < 3) || (is_store(v) && wrap_addr(a - s.i)
        <= op_x(v)))
}

/// Only Fx33 and Fx55 change memory, and they change it as they are defined to.
proof fn lemma_execute_ram(s: ChipModel, random: u8)
    requires
        model_wf(s),
    ensures
        is_bcd(s.opcode) ==> execute(s, random).ram == spec_ld_b_vx(s).ram,
        is_store(s.opcode) ==> execute(s, random).ram == spec_ld_i_vx(s).ram,
        !is_bcd(s.opcode) && !is_store(s.opcode) ==> execute(s, random).ram == s.ram,
{
    reveal(execute);
    lemma_fields_bounded(s.opcode);
}

/// A cycle leaves every memory address alone but those its instruction is
/// defined to write.
pub proof fn lemma_step_preserves_ram(s: ChipModel, inputs: Seq<Input>, fired: bool, random: u8)
    requires
        model_wf(s),
    ensures
        forall|a: int|
            0 <= a < RAM_SIZE && !cycle_writes(s, a) ==> #[trigger] step_model(
                s,
                keys_of(inputs),
                fired,
                random,
            ).ram[a] == s.ram[a],
{
    let t = step_model(s, keys_of(inputs), fired, random);
    if !s.waiting {
        let latched = ChipModel {
            key: latch_keys(keys_of(inputs)),
            transition: ProgramCountState::Next,
            display: false,
            ..s
        };
        let ticked = tick_timers(latched, fired);
        let fetched = ChipModel { opcode: fetch(ticked.ram, ticked.pc), ..ticked };
        lemma_execute_ram(fetched, random);
        assert(t.ram == execute(fetched, random).ram);
        assert forall|a: int| 0 <= a < RAM_SIZE && !cycle_writes(s, a) implies #[trigger] t.ram[a]
            == s.ram[a] by {
            if is_bcd(fetched.opcode) {
                assert(a != wrap_addr(s.i as int));
                assert(a != wrap_addr(s.i + 1));
                assert(a != wrap_addr(s.i + 2));
            }
        }
    }
}

/// A cycle moves the program counter by 2, by 4 (a skip) or to a jump target,
/// and it always stays inside memory. A skip comes only from a skipping
/// instruction and a jump only from a jumping one; while waiting for a key
/// the counter stays put.
pub proof fn lemma_step_moves_pc(s: ChipModel, inputs: Seq<Input>, fired: bool, random: u8)
    requires
        model_wf(s),
    ensures
        ({
            let t = step_model(s, keys_of(inputs), fired, random);
            let v = fetch(s.ram, s.pc);
            &&& t.pc < RAM_SIZE
            &&& s.waiting ==> t.pc == s.pc
            &&& !s.waiting ==> t.pc == advance(s.pc, t.transition)
            &&& !s.waiting && t.transition == ProgramCountState::Skip ==> may_skip(v)
            &&& !s.waiting && t.transition is Jump ==> may_jump(v)
        }),
{
    reveal(execute);
    let v = fetch(s.ram, s.pc);
    lemma_fields_bounded(v);
}

/// Without Fx15 or Fx18, a cycle never raises a timer.
pub proof fn lemma_timers_never_rise(s: ChipModel, inputs: Seq<Input>, fired: bool, random: u8)
    requires
        model_wf(s),
        s.waiting || !sets_timer(fetch(s.ram, s.pc)),
    ensures
        step_model(s, keys_of(inputs), fired, random).delay_timer <= s.delay_timer,
        step_model(s, keys_of(inputs), fired, random).sound_timer <= s.sound_timer,
{
    reveal(execute);
    let v = fetch(s.ram, s.pc);
    lemma_fields_bounded(v);
}

/// Fx55 and Fx65 leave I alone unless the original load semantic is on; with
/// it, they advance I by x + 1 (modulo 2^16).
pub proof fn lemma_load_store_index(s: ChipModel, inputs: Seq<Input>, fired: bool, random: u8)
    requires
        model_wf(s),
        !s.waiting,
        is_store(fetch(s.ram, s.pc)) || is_load(fetch(s.ram, s.pc)),
    ensures
        !s.original_load ==> step_model(s, keys_of(inputs), fired, random).i == s.i,
        s.original_load ==> step_model(s, keys_of(inputs), fired, random).i as int == (s.i + op_x(
            fetch(s.ram, s.pc),
        ) + 1) % 0x10000,
{
    reveal(execute);
    let v = fetch(s.ram, s.pc);
    lemma_fields_bounded(v);
}

/// Whether the sprite of the current Dxyn of `s` has a set bit.
pub open spec fn sprite_has_set_bit(s: ChipModel) -> bool {
    exists|r: int, c: int| 0 <= r < op_n(s.opcode) && 0 <= c < 8 && #[trigger] sprite_bit(s.ram, s.i, r, c) == 1
}

/// Whether a set bit of the sprite of the current Dxyn of `s` lands on a
/// clear pixel.
pub open spec fn sprite_lands_on_clear(s: ChipModel) -> bool {
    let sx = (vx(s) % (SCREEN_W as u8)) as int;
    let sy = (vy(s) % (SCREEN_H as u8)) as int;
    exists|r: int, c: int|
        0 <= r < op_n(s.opcode) && 0 <= c < 8 && #[trigger] sprite_bit(s.ram, s.i, r, c) == 1
            && s.vram[((sy + r) % (SCREEN_H as int)) * (SCREEN_W as int) + (sx + c) % (
        SCREEN_W as int)] == 0
}

proof fn lemma_xor_twice(a: u8, b: u8)
    ensures
        (a ^ b) ^ b == a,
{
    assert((a ^ b) ^ b == a) by (bit_vector);
}

/// Drawing the same sprite twice at the same place restores the screen, and
/// the second draw reports a collision exactly when a set bit of the sprite
/// fell on a pixel that was clear before the first. So when the first draw
/// erased nothing, the second reports a collision exactly when the sprite has
/// a set bit. The place stays the same when neither coordinate register is
/// VF, which the first draw overwrites.
pub proof fn lemma_draw_twice(s: ChipModel)
    requires
        model_wf(s),
        op_family(s.opcode) == 0xd,
        op_x(s.opcode) != FLAG,
        op_y(s.opcode) != FLAG,
    ensures
        spec_drw(spec_drw(s)).vram == s.vram,
        spec_drw(spec_drw(s)).v[FLAG as int] == bit_of(sprite_lands_on_clear(s)),
        spec_drw(spec_drw(s)).display,
        !collides(s.vram, s.ram, s.i, (vx(s) % (SCREEN_W as u8)) as int, (vy(s) % (SCREEN_H as u8)) as int, op_n(s.opcode) as int)
            ==> spec_drw(spec_drw(s)).v[FLAG as int] == bit_of(sprite_has_set_bit(s)),
{
    let t = spec_drw(s);
    let u = spec_drw(t);
    let sx = (vx(s) % (SCREEN_W as u8)) as int;
    let sy = (vy(s) % (SCREEN_H as u8)) as int;
    let n = op_n(s.opcode) as int;
    lemma_fields_bounded(s.opcode);
    assert(vx(t) == vx(s));
    assert(vy(t) == vy(s));
    assert forall|a: int| 0 <= a < s.vram.len() implies #[trigger] u.vram[a] == s.vram[a] by {
        lemma_xor_twice(s.vram[a], sprite_bit(s.ram, s.i, sprite_row(sy, a / 64), sprite_col(sx, a % 64)));
    }
    assert(u.vram =~= s.vram);
    let coll2 = collides(t.vram, t.ram, t.i, sx, sy, n);
    if coll2 {
        let (r, c) = choose|r: int, c: int|
            0 <= r < n && 0 <= c < 8 && #[trigger] sprite_bit(t.ram, t.i, r, c) == 1 && t.vram[((sy + r)
                % (SCREEN_H as int)) * (SCREEN_W as int) + (sx + c) % (SCREEN_W as int)] == 1;
        lemma_pixel_hit(s, sx, sy, n, r, c);
    }
    if sprite_lands_on_clear(s) {
        let (r, c) = choose|r: int, c: int|
            0 <= r < n && 0 <= c < 8 && #[trigger] sprite_bit(s.ram, s.i, r, c) == 1 && s.vram[((sy + r)
                % (SCREEN_H as int)) * (SCREEN_W as int) + (sx + c) % (SCREEN_W as int)] == 0;
        lemma_pixel_hit(s, sx, sy, n, r, c);
        assert(coll2);
    }
    if !collides(s.vram, s.ram, s.i, sx, sy, n) && sprite_has_set_bit(s) {
        let (r, c) = choose|r: int, c: int|
            0 <= r < n && 0 <= c < 8 && #[trigger] sprite_bit(s.ram, s.i, r, c) == 1;
        lemma_pixel_hit(s, sx, sy, n, r, c);
        assert(sprite_lands_on_clear(s));
    }
}

/// After the first draw, the pixel under set sprite bit `(r, c)` is lit
/// exactly when it was clear before.
proof fn lemma_pixel_hit(s: ChipModel, sx: int, sy: int, n: int, r: int, c: int)
    requires
        model_wf(s),
        0 <= sx < SCREEN_W,
        0 <= sy < SCREEN_H,
        n == op_n(s.opcode),
        n < 16,
        0 <= r < n,
        0 <= c < 8,
        sx == (vx(s) % (SCREEN_W as u8)) as int,
        sy == (vy(s) % (SCREEN_H as u8)) as int,
    ensures
        ({
            let a = ((sy + r) % (SCREEN_H as int)) * (SCREEN_W as int) + (sx + c) % (SCREEN_W as int);
            &&& 0 <= a < SCREEN_W * SCREEN_H
            &&& spec_drw(s).vram[a] == s.vram[a] ^ sprite_bit(s.ram, s.i, r, c)
            &&& sprite_bit(s.ram, s.i, r, c) == 1 ==> (spec_drw(s).vram[a] == 1 <==> s.vram[a] == 0)
        }),
{
    let x = (sx + c) % (SCREEN_W as int);
    let y = (sy + r) % (SCREEN_H as int);
    let a = y * (SCREEN_W as int) + x;
    lemma_pixel_join(x, y);
    lemma_sprite_col(sx, c);
    lemma_sprite_row(sy, r);
    let p = s.vram[a];
    assert(p <= 1);
    assert(p <= 1 ==> ((p ^ 1) == 1 <==> p == 0)) by (bit_vector);
}

} // verus!
