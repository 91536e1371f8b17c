//! Properties that relate several instructions or several steps.
use vstd::prelude::*;

use crate::decode::{instruction_of, Instruction};
use crate::display::{bit_at, blank, collides, drawn, sprite_col, sprite_hit, sprite_row};
use crate::machine::{
    advance, execute, fetchable, fetched, font_glyphs, shaped, step_spec, timer_after, Fault, MachineState, StepEvent,
};

verus! {

/// A call followed by a return resumes at the instruction right after the call,
/// with the stack as it was, at any depth below 16.
pub proof fn lemma_call_then_return(s: MachineState, addr: u16, keys: Seq<bool>, rnd: u8)
    requires
        shaped(s),
        s.stack.len() < 16,
        s.pc as int + 2 <= 0xFFFF,
    ensures
        execute(s, Instruction::Call { addr }, keys, rnd) is Ok,
        execute(s, Instruction::Call { addr }, keys, rnd)->Ok_0.pc == addr,
        execute(s, Instruction::Call { addr }, keys, rnd)->Ok_0.stack.len() == s.stack.len() + 1,
        execute(execute(s, Instruction::Call { addr }, keys, rnd)->Ok_0, Instruction::Return, keys, rnd)
            == Ok::<MachineState, Fault>(advance(s)),
{
    let t = execute(s, Instruction::Call { addr }, keys, rnd)->Ok_0;
    assert(t.stack.drop_last() =~= s.stack);
}

/// Stepping a call instruction whose target holds a return, at any depth below
/// 16, runs the return next and resumes right after the call with the stack
/// as it was.
pub proof fn lemma_step_call_then_return(s: MachineState, addr: u16, keys: Seq<bool>, rnd: u8)
    requires
        shaped(s),
        s.stack.len() < 16,
        fetchable(s),
        fetched(s) as int == 0x2000 + addr,
        addr as int + 1 < 4096,
        s.ram[addr as int] == 0x00,
        s.ram[addr as int + 1] == 0xEE,
    ensures
        step_spec(s, keys, rnd) is Ok,
        step_spec(s, keys, rnd)->Ok_0.0.pc == addr,
        step_spec(s, keys, rnd)->Ok_0.1 == StepEvent::Executed,
        step_spec(step_spec(s, keys, rnd)->Ok_0.0, keys, rnd)
            == Ok::<(MachineState, StepEvent), Fault>((advance(s), StepEvent::Executed)),
{
    assert(instruction_of(fetched(s)) == Instruction::Call { addr });
    lemma_call_then_return(s, addr, keys, rnd);
    let t = execute(s, Instruction::Call { addr }, keys, rnd)->Ok_0;
    assert(fetched(t) == 0x00EE);
    assert(instruction_of(0x00EE) == Instruction::Return);
}

/// Whether an instruction sets the program counter itself.
pub open spec fn transfers_control(ins: Instruction) -> bool {
    match ins {
        Instruction::Return | Instruction::Jump { .. } | Instruction::Call { .. } => true,
        Instruction::SkipEqImm { .. } | Instruction::SkipNeImm { .. } => true,
        Instruction::SkipEqReg { .. } | Instruction::SkipNeReg { .. } => true,
        Instruction::SkipKey { .. } | Instruction::SkipNoKey { .. } => true,
        _ => false,
    }
}

/// Every instruction that does not set the program counter itself, when it
/// succeeds, advances it by exactly 2 and leaves the call stack alone.
pub proof fn lemma_pc_advances(s: MachineState, ins: Instruction, keys: Seq<bool>, rnd: u8)
    requires
        !transfers_control(ins),
        s.pc as int + 2 <= 0xFFFF,
        execute(s, ins, keys, rnd) is Ok,
    ensures
        execute(s, ins, keys, rnd)->Ok_0.pc == s.pc + 2,
        execute(s, ins, keys, rnd)->Ok_0.stack == s.stack,
{
}

/// A call with 16 return addresses already stacked faults with `StackOverflow`.
pub proof fn lemma_call_overflow(s: MachineState, addr: u16, keys: Seq<bool>, rnd: u8)
    requires
        s.stack.len() == 16,
    ensures
        execute(s, Instruction::Call { addr }, keys, rnd) == Err::<MachineState, Fault>(Fault::StackOverflow),
{
}

/// A return with an empty stack faults with `StackUnderflow`.
pub proof fn lemma_return_underflow(s: MachineState, keys: Seq<bool>, rnd: u8)
    requires
        s.stack.len() == 0,
    ensures
        execute(s, Instruction::Return, keys, rnd) == Err::<MachineState, Fault>(Fault::StackUnderflow),
{
}

/// After `n` ticks a timer that started at `t` reads `t - n`, or 0 once `n >= t`.
pub proof fn lemma_timer_decay(t: u8, n: nat)
    ensures
        timer_after(t, n) == (if n >= t { 0 } else { t - n }),
    decreases n,
{
    if n > 0 {
        lemma_timer_decay(t, (n - 1) as nat);
    }
}

/// The pixel that row `r`, column `c` of a sprite at (`vx`, `vy`) lands on,
/// each coordinate wrapping, is toggled exactly when that sprite bit is set.
pub proof fn lemma_sprite_pixel(sprite: Seq<u8>, vx: u8, vy: u8, r: int, c: int)
    requires
        0 <= r < sprite.len() <= 32,
        0 <= c < 8,
    ensures
        sprite_row(vy, ((vy + r) % 32) * 64 + (vx + c) % 64) == r,
        sprite_col(vx, ((vy + r) % 32) * 64 + (vx + c) % 64) == c,
        sprite_hit(sprite, vx, vy, ((vy + r) % 32) * 64 + (vx + c) % 64) == bit_at(sprite[r], c),
{
    let p = ((vy + r) % 32) * 64 + (vx + c) % 64;
    assert(p % 64 == (vx + c) % 64 && p / 64 == (vy + r) % 32) by (nonlinear_arith)
        requires
            p == ((vy + r) % 32) * 64 + (vx + c) % 64,
            0 <= (vx + c) % 64 < 64,
    ;
}

/// Drawing the same sprite twice at the same place restores the screen.
pub proof fn lemma_draw_twice_restores(screen: Seq<bool>, sprite: Seq<u8>, vx: u8, vy: u8)
    requires
        screen.len() == 2048,
    ensures
        drawn(drawn(screen, sprite, vx, vy), sprite, vx, vy) == screen,
{
    assert(drawn(drawn(screen, sprite, vx, vy), sprite, vx, vy) =~= screen);
}

/// A byte with some bit set has a set bit at one of the eight columns.
proof fn lemma_some_bit(b: u8)
    requires
        b != 0,
    ensures
        exists|c: int| 0 <= c < 8 && bit_at(b, c),
{
    assert(b & 0x80 != 0 || b & 0x40 != 0 || b & 0x20 != 0 || b & 0x10 != 0 || b & 0x08 != 0
        || b & 0x04 != 0 || b & 0x02 != 0 || b & 0x01 != 0) by (bit_vector)
        requires
            b != 0,
    ;
    assert(0x80u8 >> 0u8 == 0x80u8 && 0x80u8 >> 1u8 == 0x40u8 && 0x80u8 >> 2u8 == 0x20u8 && 0x80u8 >> 3u8
        == 0x10u8 && 0x80u8 >> 4u8 == 0x08u8 && 0x80u8 >> 5u8 == 0x04u8 && 0x80u8 >> 6u8 == 0x02u8
        && 0x80u8 >> 7u8 == 0x01u8) by (bit_vector);
    if b & 0x80 != 0 {
        assert(bit_at(b, 0));
    } else if b & 0x40 != 0 {
        assert(bit_at(b, 1));
    } else if b & 0x20 != 0 {
        assert(bit_at(b, 2));
    } else if b & 0x10 != 0 {
        assert(bit_at(b, 3));
    } else if b & 0x08 != 0 {
        assert(bit_at(b, 4));
    } else if b & 0x04 != 0 {
        assert(bit_at(b, 5));
    } else if b & 0x02 != 0 {
        assert(bit_at(b, 6));
    } else {
        assert(bit_at(b, 7));
    }
}

/// On a blank screen, drawing a single-byte sprite with some bit set reports no
/// collision; drawing it again at the same place reports a collision and
/// leaves the screen blank.
pub proof fn lemma_draw_twice_collides(sprite: Seq<u8>, vx: u8, vy: u8)
    requires
        sprite.len() == 1,
        sprite[0] != 0,
    ensures
        !collides(blank(), sprite, vx, vy),
        collides(drawn(blank(), sprite, vx, vy), sprite, vx, vy),
        drawn(drawn(blank(), sprite, vx, vy), sprite, vx, vy) == blank(),
{
    lemma_draw_twice_restores(blank(), sprite, vx, vy);
    lemma_some_bit(sprite[0]);
    let c = choose|c: int| 0 <= c < 8 && bit_at(sprite[0], c);
    lemma_sprite_pixel(sprite, vx, vy, 0, c);
    let p = ((vy + 0) % 32) * 64 + (vx + c) % 64;
    assert(0 <= p < 2048);
    assert(sprite_hit(sprite, vx, vy, p) && drawn(blank(), sprite, vx, vy)[p]);
}

/// On a blank screen, two sprites that toggle no common pixel never set the
/// collision flag, whichever is drawn first.
pub proof fn lemma_disjoint_sprites_no_collision(a: Seq<u8>, ax: u8, ay: u8, b: Seq<u8>, bx: u8, by: u8)
    requires
        forall|p: int| 0 <= p < 2048 ==> !(sprite_hit(a, ax, ay, p) && sprite_hit(b, bx, by, p)),
    ensures
        !collides(blank(), a, ax, ay),
        !collides(drawn(blank(), a, ax, ay), b, bx, by),
{
}

/// The font-address instruction points the address register at five times
/// the register's digit, and on a machine whose low 80 bytes hold the glyphs
/// the five bytes found there are that digit's glyph.
pub proof fn lemma_font_address(s: MachineState, x: u8, keys: Seq<bool>, rnd: u8)
    requires
        shaped(s),
        x < 16,
        s.v[x as int] < 16,
        s.pc as int + 2 <= 0xFFFF,
        s.ram.subrange(0, 80) == font_glyphs(),
    ensures
        execute(s, Instruction::FontAddr { x }, keys, rnd) is Ok,
        execute(s, Instruction::FontAddr { x }, keys, rnd)->Ok_0.i == 5 * s.v[x as int],
        s.ram.subrange(5 * s.v[x as int], 5 * s.v[x as int] + 5)
            == font_glyphs().subrange(5 * s.v[x as int], 5 * s.v[x as int] + 5),
{
    let d = s.v[x as int] as int;
    assert(s.ram.subrange(5 * d, 5 * d + 5) =~= font_glyphs().subrange(5 * d, 5 * d + 5)) by {
        assert forall|k: int| 0 <= k < 5 implies #[trigger] s.ram[5 * d + k] == font_glyphs()[5 * d + k] by {
            assert(s.ram.subrange(0, 80)[5 * d + k] == s.ram[5 * d + k]);
        }
    }
}

} // verus!
