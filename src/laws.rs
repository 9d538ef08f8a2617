use vstd::arithmetic::div_mod::{
    lemma_div_denominator,
    lemma_fundamental_div_mod,
    lemma_fundamental_div_mod_converse,
};
use vstd::prelude::*;

use crate::machine::{
    execute_word_spec,
    step_spec,
    Chip8Error,
    EffectView,
    HaltReason,
    MachineState,
    RunState,
    RAM_SIZE,
    STACK_SIZE,
};
use crate::opcode::{field_n, field_nn, field_nnn, field_x, field_y};

verus! {

/// The instruction word with nibbles `g`, `x`, `y`, `n` from the top down.
pub open spec fn instruction_word(g: int, x: int, y: int, n: int) -> u16 {
    (g * 4096 + x * 256 + y * 16 + n) as u16
}

/// The word `gXNN`.
pub open spec fn word_xnn(g: int, x: u8, nn: u8) -> u16 {
    instruction_word(g, x as int, nn as int / 16, nn as int % 16)
}

/// The word `gNNN`.
pub open spec fn word_nnn(g: int, nnn: u16) -> u16 {
    instruction_word(g, nnn as int / 256, (nnn as int / 16) % 16, nnn as int % 16)
}

/// Each field of a word built from four nibbles reads back as that nibble.
proof fn lemma_word_fields(g: int, x: int, y: int, n: int)
    requires
        0 <= g < 16,
        0 <= x < 16,
        0 <= y < 16,
        0 <= n < 16,
    ensures
        instruction_word(g, x, y, n) == g * 4096 + x * 256 + y * 16 + n,
        instruction_word(g, x, y, n) / 4096 == g,
        field_x(instruction_word(g, x, y, n)) == x,
        field_y(instruction_word(g, x, y, n)) == y,
        field_n(instruction_word(g, x, y, n)) == n,
        field_nn(instruction_word(g, x, y, n)) == y * 16 + n,
        field_nnn(instruction_word(g, x, y, n)) == x * 256 + y * 16 + n,
{
    let w = g * 4096 + x * 256 + y * 16 + n;
    assert(instruction_word(g, x, y, n) == w);
    lemma_fundamental_div_mod_converse(w, 4096, g, x * 256 + y * 16 + n);
    lemma_fundamental_div_mod_converse(w, 256, g * 16 + x, y * 16 + n);
    lemma_fundamental_div_mod_converse(w / 256, 16, g, x);
    lemma_fundamental_div_mod_converse(w, 16, g * 256 + x * 16 + y, n);
    lemma_fundamental_div_mod_converse(w / 16, 16, g * 16 + x, y);
}

proof fn lemma_word_xnn(g: int, x: u8, nn: u8)
    requires
        0 <= g < 16,
        x < 16,
    ensures
        word_xnn(g, x, nn) / 4096 == g,
        field_x(word_xnn(g, x, nn)) == x,
        field_nn(word_xnn(g, x, nn)) == nn,
        field_y(word_xnn(g, x, nn)) == nn / 16,
        field_n(word_xnn(g, x, nn)) == nn % 16,
{
    lemma_word_fields(g, x as int, nn as int / 16, nn as int % 16);
}

proof fn lemma_word_nnn(g: int, nnn: u16)
    requires
        0 <= g < 16,
        nnn < 4096,
    ensures
        word_nnn(g, nnn) / 4096 == g,
        field_nnn(word_nnn(g, nnn)) == nnn,
{
    lemma_word_fields(g, nnn as int / 256, (nnn as int / 16) % 16, nnn as int % 16);
}

/// After `6XNN`, register `Vx` holds `NN`.
pub proof fn load_sets_register(m: MachineState, x: u8, nn: u8, keys: u16, random: u8)
    requires
        m.wf(),
        x < 16,
        m.pc + 1 < RAM_SIZE,
    ensures
        execute_word_spec(m, word_xnn(6, x, nn), keys, random) matches Ok((next, _))
            && next.v[x as int] == nn,
{
    lemma_word_xnn(6, x, nn);
}

/// Setting `Vx` to `a` with `6XNN` and then adding `b` with `7XNN` leaves
/// `(a + b) mod 256` in `Vx`.
pub proof fn add_immediate_wraps(m: MachineState, x: u8, a: u8, b: u8, keys: u16, random: u8)
    requires
        m.wf(),
        x < 16,
        m.pc + 3 < RAM_SIZE,
    ensures
        execute_word_spec(m, word_xnn(6, x, a), keys, random) matches Ok((loaded, _))
            && execute_word_spec(loaded, word_xnn(7, x, b), keys, random) matches Ok((added, _))
            && added.v[x as int] == (a + b) % 256,
{
    lemma_word_xnn(6, x, a);
    lemma_word_xnn(7, x, b);
}

/// `8XY4` sets VF to 1 exactly when `Vx + Vy` exceeds 255 and leaves the sum
/// modulo 256 in `Vx` (for `x` other than F, whose sum overwrites the flag).
pub proof fn add_with_carry_sets_flag(m: MachineState, x: u8, y: u8, keys: u16, random: u8)
    requires
        m.wf(),
        x < 15,
        y < 16,
        m.pc + 1 < RAM_SIZE,
    ensures
        execute_word_spec(m, instruction_word(8, x as int, y as int, 4), keys, random) matches Ok(
            (next, _),
        ) && next.v[15] == (if m.v[x as int] + m.v[y as int] > 255 { 1u8 } else { 0u8 })
            && next.v[x as int] == (m.v[x as int] + m.v[y as int]) % 256,
{
    lemma_word_fields(8, x as int, y as int, 4);
}

/// `2NNN` followed by `00EE` brings the program counter back to the
/// instruction after the call, with the stack as it was.
pub proof fn call_then_return(m: MachineState, nnn: u16, keys: u16, random: u8)
    requires
        m.wf(),
        m.stack.len() < STACK_SIZE,
        m.pc + 1 < RAM_SIZE,
        nnn + 1 < RAM_SIZE,
    ensures
        execute_word_spec(m, word_nnn(2, nnn), keys, random) matches Ok((called, _))
            && called.pc == nnn && (execute_word_spec(called, 0x00EE, keys, random) matches Ok(
            (returned, _),
        ) && returned.pc == m.pc + 2 && returned.stack == m.stack),
{
    lemma_word_nnn(2, nnn);
    let called = MachineState {
        stack: m.stack.push((m.pc + 2) as u16),
        ..m.with_pc(nnn as int)
    };
    assert(execute_word_spec(m, word_nnn(2, nnn), keys, random) == Ok::<
        (MachineState, EffectView),
        Chip8Error,
    >((called, EffectView::Nothing)));
    assert(called.stack.drop_last() =~= m.stack);
}

/// `3XNN` advances the program counter by 4 when `Vx == NN` and by 2
/// otherwise.
pub proof fn skip_if_equal_advances(m: MachineState, x: u8, nn: u8, keys: u16, random: u8)
    requires
        m.wf(),
        x < 16,
        m.pc + 1 < RAM_SIZE,
    ensures
        execute_word_spec(m, word_xnn(3, x, nn), keys, random) matches Ok((next, _)) && next.pc
            == m.pc + if m.v[x as int] == nn { 4int } else { 2int },
{
    lemma_word_xnn(3, x, nn);
}

/// The three digits that `FX33` stores at `I`, `I+1`, `I+2` are decimal
/// digits that recombine as hundreds, tens and ones to `Vx`.
pub proof fn decimal_digits_recombine(m: MachineState, x: u8, keys: u16, random: u8)
    requires
        m.wf(),
        x < 16,
        m.pc + 1 < RAM_SIZE,
        m.i + 3 <= RAM_SIZE,
    ensures
        execute_word_spec(m, word_xnn(0xF, x, 0x33), keys, random) matches Ok((next, _))
            && next.ram[m.i as int] < 10 && next.ram[m.i + 1] < 10 && next.ram[m.i + 2] < 10
            && next.ram[m.i as int] * 100 + next.ram[m.i + 1] * 10 + next.ram[m.i + 2]
            == m.v[x as int],
{
    lemma_word_xnn(0xF, x, 0x33);
    let value = m.v[x as int] as int;
    lemma_fundamental_div_mod(value, 10);
    lemma_fundamental_div_mod(value / 10, 10);
    lemma_div_denominator(value, 10, 10);
}

/// Storing `V0..=Vx` with `FX55` and later loading them back with `FX65`,
/// from a state with the same memory and index register (whatever the
/// registers hold by then), restores the stored values.
pub proof fn store_then_load_registers(m: MachineState, x: u8, keys: u16, random: u8)
    requires
        m.wf(),
        x < 16,
        m.pc + 1 < RAM_SIZE,
        m.i + x + 1 <= RAM_SIZE,
    ensures
        execute_word_spec(m, word_xnn(0xF, x, 0x55), keys, random) matches Ok((stored, _)) && (
        forall|later: MachineState|
            (later.wf() && later.ram == stored.ram && later.i == stored.i && later.pc + 1
                < RAM_SIZE) ==> (#[trigger] execute_word_spec(
                later,
                word_xnn(0xF, x, 0x65),
                keys,
                random,
            ) matches Ok((loaded, _)) && forall|k: int| 0 <= k <= x ==> loaded.v[k] == m.v[k])),
{
    lemma_word_xnn(0xF, x, 0x55);
    lemma_word_xnn(0xF, x, 0x65);
}

/// A running machine whose instruction is a jump to its own address halts
/// after one tick, without an error.
pub proof fn self_jump_halts(m: MachineState, keys: u16, random: u8)
    requires
        m.wf(),
        m.state == RunState::Running,
        m.pc + 1 < RAM_SIZE,
        m.fetch() == word_nnn(1, m.pc),
    ensures
        step_spec(m, keys, random) matches Ok((next, _)) && next.state == (RunState::Halted {
            reason: HaltReason::SelfJump,
        }),
{
    lemma_word_nnn(1, m.pc);
}

/// A return with an empty call stack is a fatal error, and nothing else
/// of the instruction takes effect.
pub proof fn empty_stack_return_fails(m: MachineState, keys: u16, random: u8)
    requires
        m.wf(),
        !m.is_halted(),
        m.pc + 1 < RAM_SIZE,
        m.stack.len() == 0,
        m.fetch() == 0x00EE,
    ensures
        step_spec(m, keys, random) == Err::<(MachineState, EffectView), _>(
            Chip8Error::StackUnderflow { address: m.pc },
        ),
{
}

} // verus!
