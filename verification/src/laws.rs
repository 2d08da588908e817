//! Laws of the machine: properties that relate several operations, stated
//! over the model and proved once for every input.

use vstd::prelude::*;

use crate::model::{
    exec_spec, first_key_from, font_byte, imm_nn, init_state, lemma_first_key_skip, nib_a, nib_x,
    step_spec, timers_spec, word_at, State,
};
use crate::EmuError;

verus! {

/// The state that fresh construction and every reset yield, spelled out:
/// the font glyphs fill the first 80 bytes of memory, everything else is
/// zeroed, and the program counter sits at the load address. Since both
/// `Emu::default` and `Emu::reset` end in exactly `init_state()` whatever
/// came before, any number of resets, at any time, leaves a machine
/// identical to a freshly built one.
pub proof fn lemma_initial_layout()
    ensures
        init_state().wf(),
        init_state().pc == 0x200,
        init_state().i_reg == 0,
        init_state().sp == 0,
        init_state().dt == 0,
        init_state().st == 0,
        forall|i: int| 0 <= i < 80 ==> init_state().ram[i] == font_byte(i),
        forall|i: int| 80 <= i < 4096 ==> init_state().ram[i] == 0,
        forall|i: int| 0 <= i < 2048 ==> !init_state().screen[i],
        forall|i: int| 0 <= i < 16 ==> init_state().v_reg[i] == 0,
        forall|i: int| 0 <= i < 16 ==> init_state().stack[i] == 0,
        forall|i: int| 0 <= i < 16 ==> !init_state().keys[i],
{
}

/// A `3xnn` conditional skip advances the program counter by 4 over the
/// whole step (2 from the fetch, 2 from the skip) when register x holds
/// `nn`, and by only 2 when it does not; nothing else moves.
pub proof fn lemma_skip_semantics(s: State, rnd: u8)
    requires
        s.wf(),
        s.pc + 2 <= 4096,
        nib_a(word_at(s.ram, s.pc as int)) == 0x3,
    ensures
        step_spec(s, rnd) == Ok::<State, EmuError>(
            State {
                pc: if s.v_reg[nib_x(word_at(s.ram, s.pc as int))] == imm_nn(
                    word_at(s.ram, s.pc as int),
                ) {
                    (s.pc + 4) as u16
                } else {
                    (s.pc + 2) as u16
                },
                ..s
            },
        ),
{
    let op = word_at(s.ram, s.pc as int);
    let mid = State { pc: (s.pc + 2) as u16, ..s };
    if s.v_reg[nib_x(op)] == imm_nn(op) {
        assert(exec_spec(mid, op, rnd) == Ok::<State, EmuError>(
            State { pc: (s.pc + 4) as u16, ..s },
        ));
    } else {
        assert(exec_spec(mid, op, rnd) == Ok::<State, EmuError>(
            State { pc: (s.pc + 2) as u16, ..s },
        ));
    }
}

/// `Fx0A` with no key pressed rewinds the program counter over the fetch:
/// the whole step leaves the machine exactly unchanged, so the same
/// instruction re-executes identically step after step until a key is
/// pressed.
pub proof fn lemma_key_wait_rewind(s: State, rnd: u8)
    requires
        s.wf(),
        s.pc + 2 <= 4096,
        nib_a(word_at(s.ram, s.pc as int)) == 0xF,
        imm_nn(word_at(s.ram, s.pc as int)) == 0x0A,
        forall|k: int| 0 <= k < 16 ==> !s.keys[k],
    ensures
        step_spec(s, rnd) == Ok::<State, EmuError>(s),
{
    let op = word_at(s.ram, s.pc as int);
    let mid = State { pc: (s.pc + 2) as u16, ..s };
    lemma_first_key_skip(s.keys, 0, 16);
    assert(first_key_from(s.keys, 0) is None);
    assert(exec_spec(mid, op, rnd) == Ok::<State, EmuError>(
        State { pc: (mid.pc - 2) as u16, ..mid },
    ));
    assert(State { pc: (mid.pc - 2) as u16, ..mid } =~= s);
}

/// A timer tick never decrements a timer that is already at zero, so
/// repeated ticks leave a zero timer at zero; a nonzero timer goes down by
/// exactly one per tick.
pub proof fn lemma_timer_floor(s: State)
    ensures
        s.dt == 0 ==> timers_spec(s).dt == 0,
        s.st == 0 ==> timers_spec(s).st == 0,
        s.dt > 0 ==> timers_spec(s).dt == s.dt - 1,
        s.st > 0 ==> timers_spec(s).st == s.st - 1,
{
}

} // verus!
