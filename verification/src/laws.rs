//! What holds of the transition function on every machine.

use crate::instruction::{
    decode_spec, lemma_decode_inverts_encode, lemma_decode_of_encode, Instruction,
};
use crate::machine::{
    blank_display, counted_down_by, Machine, MEMORY_SIZE, SCREEN_HEIGHT, SCREEN_WIDTH,
};
use crate::semantics::{
    advanced, draws_random, drawn, executed, execution_fault, first_change, flag_of, opcode_at,
    sprite_collides, sprite_covers, sprite_left, sprite_top, step, tick_result, Fault,
};
use vstd::prelude::*;

verus! {

/// `6xkk` puts `kk` into `Vx` and moves the program counter on by exactly 2.
/// Nothing else changes in the step; the tick then takes its snapshot of the
/// keys.
pub proof fn law_load_immediate(m: Machine, x: usize, kk: u8, random: u8)
    requires
        m.wf(),
        m.pc + 1 < MEMORY_SIZE,
        x < 16,
        opcode_at(m) == 0x6000 + x * 0x100 + kk,
    ensures
        step(m, random) == Ok::<Machine, Fault>(
            Machine { v: m.v.update(x as int, kk), pc: (m.pc + 2) as u16, ..m },
        ),
        step(m, random)->Ok_0.v[x as int] == kk,
        step(m, random)->Ok_0.pc == m.pc + 2,
        tick_result(m, random) == Ok::<Machine, Fault>(
            Machine { v: m.v.update(x as int, kk), pc: (m.pc + 2) as u16, keys_prev: m.keys, ..m },
        ),
{
    lemma_decode_of_encode(Instruction::LoadImm { x, kk });
}

/// `00E0` turns every cell of the display off and sets the changed flag. The
/// program counter moves on by 2, and nothing else changes in the step.
pub proof fn law_clear_screen(m: Machine, random: u8)
    requires
        m.wf(),
        m.pc + 1 < MEMORY_SIZE,
        opcode_at(m) == 0x00E0,
    ensures
        step(m, random) == Ok::<Machine, Fault>(
            Machine { display: blank_display(), changed: true, pc: (m.pc + 2) as u16, ..m },
        ),
        step(m, random)->Ok_0.changed,
        forall|r: int, c: int|
            0 <= r < SCREEN_HEIGHT && 0 <= c < SCREEN_WIDTH
                ==> !(#[trigger] step(m, random)->Ok_0.display[r][c]),
{
}

/// Drawing the same sprite twice restores the display. The second draw
/// starts at the cell where the first one started, and its `VF` tells whether
/// the sprite meets a cell that the first draw left on: a cell under a set bit
/// that was off before the first draw.
pub proof fn law_draw_twice(m: Machine, x: usize, y: usize, n: u8, random: u8)
    requires
        m.wf(),
        x < 16,
        y < 16,
    ensures
        ({
            let draw = Instruction::Draw { x, y, n };
            let once = executed(m, draw, random);
            let twice = executed(once, draw, random);
            let left = sprite_left(m, x);
            let top = sprite_top(m, y);
            &&& sprite_left(once, x) == left
            &&& sprite_top(once, y) == top
            &&& twice.display == m.display
            &&& twice.v[0xF] == flag_of(sprite_collides(once, left, top, n as int))
            &&& twice.v[0xF] == 1 <==> exists|r: int, c: int|
                0 <= r < SCREEN_HEIGHT && 0 <= c < SCREEN_WIDTH && !m.display[r][c]
                    && #[trigger] sprite_covers(m, left, top, n as int, r, c)
            &&& twice == Machine { v: twice.v, changed: true, ..m }
        }),
{
    let once = drawn(m, x, y, n);
    let twice = drawn(once, x, y, n);
    let left = sprite_left(m, x);
    let top = sprite_top(m, y);
    assert(once.v.update(0xF, 0u8) =~= m.v.update(0xF, 0u8));
    assert(twice.display =~~= m.display);
    if sprite_collides(once, left, top, n as int) {
        let (r, c) = choose|r: int, c: int|
            0 <= r < SCREEN_HEIGHT && 0 <= c < SCREEN_WIDTH && once.display[r][c]
                && #[trigger] sprite_covers(once, left, top, n as int, r, c);
        assert(sprite_covers(m, left, top, n as int, r, c));
        assert(!m.display[r][c]);
    }
    if exists|r: int, c: int|
        0 <= r < SCREEN_HEIGHT && 0 <= c < SCREEN_WIDTH && !m.display[r][c]
            && #[trigger] sprite_covers(m, left, top, n as int, r, c) {
        let (r, c) = choose|r: int, c: int|
            0 <= r < SCREEN_HEIGHT && 0 <= c < SCREEN_WIDTH && !m.display[r][c]
                && #[trigger] sprite_covers(m, left, top, n as int, r, c);
        assert(sprite_covers(once, left, top, n as int, r, c));
        assert(once.display[r][c]);
    }
}

/// The random byte matters to `RND` alone: with any other instruction at the
/// program counter, every byte gives the same tick.
pub proof fn law_random_matters_to_rnd_only(m: Machine, r1: u8, r2: u8)
    requires
        !draws_random(m),
    ensures
        step(m, r1) == step(m, r2),
        tick_result(m, r1) == tick_result(m, r2),
{
    lemma_decode_inverts_encode(opcode_at(m));
}

/// Executing an instruction that raises no fault takes a well-formed machine
/// to a well-formed machine.
pub proof fn law_execution_keeps_well_formed(m: Machine, inst: Instruction, random: u8)
    requires
        m.wf(),
        inst.wf(),
        execution_fault(m, inst) is None,
    ensures
        executed(m, inst, random).wf(),
{
    let next = executed(m, inst, random);
    assert(next.display.len() == SCREEN_HEIGHT);
    assert forall|r: int| 0 <= r < SCREEN_HEIGHT implies (#[trigger] next.display[r]).len()
        == SCREEN_WIDTH by {
        if !(inst is ClearScreen || inst is Draw) {
            assert(next.display == m.display);
        }
    }
}

/// A tick takes a well-formed machine to a well-formed machine.
pub proof fn law_tick_keeps_well_formed(m: Machine, random: u8)
    requires
        m.wf(),
        tick_result(m, random) is Ok,
    ensures
        tick_result(m, random)->Ok_0.wf(),
{
    let op = opcode_at(m);
    lemma_decode_inverts_encode(op);
    let inst = decode_spec(op)->0;
    law_execution_keeps_well_formed(advanced(m), inst, random);
}

/// No instruction but `LD DT, Vx` changes the delay timer, and none but
/// `LD ST, Vx` the sound timer: the timers run down by the 60 Hz clock alone.
pub proof fn law_execution_leaves_timers(m: Machine, inst: Instruction, random: u8)
    ensures
        !(inst is SetDelay) ==> executed(m, inst, random).delay == m.delay,
        !(inst is SetSound) ==> executed(m, inst, random).sound == m.sound,
{
}

/// A timer that is run down `n` times has lost `n`, and stops at 0.
pub proof fn law_timer_runs_down(timer: u8, n: nat)
    ensures
        counted_down_by(timer, n) == if timer >= n {
            timer - n
        } else {
            0
        },
    decreases n,
{
    if n > 0 {
        law_timer_runs_down(timer, (n - 1) as nat);
    }
}

/// `8xy4` leaves the sum of `Vx` and `Vy` in `Vx` and `VF` together: the low
/// eight bits in `Vx`, the ninth in `VF`. No other register changes.
pub proof fn law_add_carries(m: Machine, x: usize, y: usize, random: u8)
    requires
        m.wf(),
        x < 16,
        y < 16,
    ensures
        ({
            let next = executed(m, Instruction::Add { x, y }, random);
            &&& next.v[0xF] == flag_of(m.v[x as int] + m.v[y as int] > 0xFF)
            &&& x != 0xF ==> next.v[x as int] + 0x100 * next.v[0xF] == m.v[x as int]
                + m.v[y as int]
            &&& forall|k: int| 0 <= k < 16 && k != x && k != 0xF ==> next.v[k] == m.v[k]
            &&& next == Machine { v: next.v, ..m }
        }),
{
}

/// `8xy5` leaves in `Vx` the difference of `Vx` and `Vy`, 256 more where `Vy`
/// is the larger, and sets `VF` to 1 where `Vx` was the larger, else to 0. No
/// other register changes.
pub proof fn law_sub_borrows(m: Machine, x: usize, y: usize, random: u8)
    requires
        m.wf(),
        x < 16,
        y < 16,
    ensures
        ({
            let next = executed(m, Instruction::Sub { x, y }, random);
            let borrow: int = if m.v[x as int] < m.v[y as int] {
                1
            } else {
                0
            };
            &&& next.v[0xF] == flag_of(m.v[x as int] > m.v[y as int])
            &&& x != 0xF ==> next.v[x as int] == m.v[x as int] - m.v[y as int] + 0x100 * borrow
            &&& forall|k: int| 0 <= k < 16 && k != x && k != 0xF ==> next.v[k] == m.v[k]
            &&& next == Machine { v: next.v, ..m }
        }),
{
}

/// `CALL` to a `RET` comes back: after the two steps the program counter is
/// behind the `CALL`, the stack pointer is what it was, and nothing changed
/// but the stack entry that held the return address meanwhile.
pub proof fn law_call_returns(m: Machine, target: u16, r1: u8, r2: u8)
    requires
        m.wf(),
        m.pc + 1 < MEMORY_SIZE,
        target + 1 < MEMORY_SIZE,
        opcode_at(m) == 0x2000 + target,
        m.memory[target as int] == 0x00,
        m.memory[target + 1] == 0xEE,
        m.sp < 15,
    ensures
        ({
            let called = step(m, r1)->Ok_0;
            let back = step(called, r2)->Ok_0;
            &&& step(m, r1) is Ok
            &&& called == Machine {
                pc: target,
                sp: (m.sp + 1) as u8,
                stack: m.stack.update(m.sp + 1, (m.pc + 2) as u16),
                ..m
            }
            &&& step(called, r2) is Ok
            &&& back == Machine { pc: (m.pc + 2) as u16, sp: m.sp, ..called }
        }),
{
    lemma_decode_of_encode(Instruction::Call { addr: target });
    lemma_decode_of_encode(Instruction::Return);
}

/// Where two snapshots of the keys differ at key `k` and at no lower key,
/// `k` is the first change.
pub proof fn lemma_first_change(prev: Seq<bool>, now: Seq<bool>, from: int, k: int)
    requires
        0 <= from <= k < 16,
        prev[k] != now[k],
        forall|j: int| from <= j < k ==> prev[j] == now[j],
    ensures
        first_change(prev, now, from) == k,
    decreases k - from,
{
    if from < k {
        lemma_first_change(prev, now, from + 1, k);
    }
}

/// Where two snapshots of the keys agree, there is no first change.
pub proof fn lemma_no_change(prev: Seq<bool>, now: Seq<bool>, from: int)
    requires
        0 <= from <= 16,
        forall|j: int| from <= j < 16 ==> prev[j] == now[j],
    ensures
        first_change(prev, now, from) == 16,
    decreases 16 - from,
{
    if from < 16 {
        lemma_no_change(prev, now, from + 1);
    }
}

/// While no key changes, the key wait stands still: a tick at `Fx0A` with the
/// keys as they were at the last tick leaves the machine as it is, whatever
/// keys are held down.
pub proof fn law_key_wait_stands_still(m: Machine, x: usize, random: u8)
    requires
        m.wf(),
        m.pc + 1 < MEMORY_SIZE,
        x < 16,
        opcode_at(m) == 0xF00A + x * 0x100,
        m.keys_prev == m.keys,
    ensures
        tick_result(m, random) == Ok::<Machine, Fault>(m),
{
    lemma_decode_of_encode(Instruction::WaitKey { x });
    lemma_no_change(m.keys_prev, m.keys, 0);
    assert(tick_result(m, random)->Ok_0 =~= m);
}

/// The key wait takes a press and then a release. When key `k` goes down and
/// no other key changes, the tick at `Fx0A` arms the latch and stays at the
/// instruction. When `k` then goes up, the next tick puts `k` into `Vx` and
/// moves on.
pub proof fn law_key_wait_completes(m: Machine, x: usize, k: int, r1: u8, r2: u8)
    requires
        m.wf(),
        m.pc + 1 < MEMORY_SIZE,
        x < 16,
        opcode_at(m) == 0xF00A + x * 0x100,
        0 <= k < 16,
        !m.keys_prev[k],
        m.keys == m.keys_prev.update(k, true),
    ensures
        ({
            let pressed = tick_result(m, r1)->Ok_0;
            let released = Machine { keys: pressed.keys.update(k, false), ..pressed };
            let done = tick_result(released, r2)->Ok_0;
            &&& tick_result(m, r1) is Ok
            &&& pressed == Machine { awaiting_release: true, keys_prev: m.keys, ..m }
            &&& tick_result(released, r2) is Ok
            &&& done == Machine {
                v: m.v.update(x as int, k as u8),
                pc: (m.pc + 2) as u16,
                awaiting_release: false,
                keys: m.keys_prev,
                ..m
            }
        }),
{
    lemma_decode_of_encode(Instruction::WaitKey { x });
    lemma_first_change(m.keys_prev, m.keys, 0, k);
    let pressed = tick_result(m, r1)->Ok_0;
    assert(pressed =~= Machine { awaiting_release: true, keys_prev: m.keys, ..m });
    let released = Machine { keys: pressed.keys.update(k, false), ..pressed };
    assert(released.keys =~= m.keys_prev);
    lemma_first_change(released.keys_prev, released.keys, 0, k);
    assert(opcode_at(released) == opcode_at(m));
}

/// `Fx29` points `I` at the glyph of the digit in `Vx`: five bytes for each
/// digit below it. Nothing else changes.
pub proof fn law_glyph_address(m: Machine, x: usize, random: u8)
    requires
        m.wf(),
        x < 16,
    ensures
        executed(m, Instruction::LoadGlyph { x }, random).i == 5 * m.v[x as int],
        executed(m, Instruction::LoadGlyph { x }, random) == (Machine {
            i: executed(m, Instruction::LoadGlyph { x }, random).i,
            ..m
        }),
{
}

/// `Fx33` writes three decimal digits that make up `Vx`, and no other byte.
pub proof fn law_bcd_digits(m: Machine, x: usize, random: u8)
    requires
        m.wf(),
        x < 16,
        m.i + 2 < MEMORY_SIZE,
    ensures
        ({
            let next = executed(m, Instruction::StoreBcd { x }, random);
            let i = m.i as int;
            &&& next.memory[i] < 10 && next.memory[i + 1] < 10 && next.memory[i + 2] < 10
            &&& 100 * next.memory[i] + 10 * next.memory[i + 1] + next.memory[i + 2]
                == m.v[x as int]
            &&& forall|a: int|
                0 <= a < MEMORY_SIZE && !(i <= a <= i + 2) ==> next.memory[a] == m.memory[a]
            &&& next == Machine { memory: next.memory, ..m }
        }),
{
}

/// What `Fx55` stores, `Fx65` loads: after the registers `V0` to `Vx` were
/// written to memory and `I` was set back, loading them gives the registers
/// that were stored.
pub proof fn law_store_then_load(m: Machine, x: usize, r1: u8, r2: u8)
    requires
        m.wf(),
        x < 16,
        m.i + x < MEMORY_SIZE,
    ensures
        ({
            let stored = executed(m, Instruction::StoreRegs { x }, r1);
            let rewound = Machine { i: m.i, ..stored };
            let loaded = executed(rewound, Instruction::LoadRegs { x }, r2);
            &&& stored.i == m.i + x + 1
            &&& forall|k: int| 0 <= k <= x ==> stored.memory[m.i + k] == m.v[k]
            &&& loaded.v == m.v
            &&& loaded == stored
        }),
{
    let stored = executed(m, Instruction::StoreRegs { x }, r1);
    let rewound = Machine { i: m.i, ..stored };
    let loaded = executed(rewound, Instruction::LoadRegs { x }, r2);
    assert(loaded.v =~= m.v);
}

} // verus!
