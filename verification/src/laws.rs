//! Properties of the instruction set that hold of every state.
//!
//! Each is stated of `State::step` and `State::run`, the functions by which
//! `CPU::run_instruction` and `CPU::run` are specified, so it holds of the
//! processor as it executes.

use vstd::prelude::*;
use crate::model::{pushed, Fault, State};
use crate::nibble::high;

verus! {

/// The state `s` with the program counter `words` words on, around the end
/// of the program store.
pub open spec fn moved(s: State, words: nat) -> State {
    State { program_counter: ((s.program_counter + words) % 4096) as u16, ..s }
}

/// The word `offset` words after the program counter.
pub open spec fn word_at(s: State, offset: nat) -> u8 {
    moved(s, offset).word()
}

/// The address of the instruction that follows a two-word instruction at the
/// program counter of `s`.
pub open spec fn return_address(s: State) -> u16 {
    moved(s, 2).program_counter
}

/// An instruction that does not fault leaves every register within its
/// width, the program counter within the program store, at most three return
/// addresses, and the bank register within three bits.
pub proof fn step_preserves_wf(s: State)
    requires
        s.wf(),
    ensures
        s.step() matches Ok(next) ==> next.wf(),
{
}

/// A run, however long, ends in a state that is sound again.
pub proof fn run_preserves_wf(s: State, n: nat)
    requires
        s.wf(),
    ensures
        s.run(n).0.wf(),
    decreases n,
{
    if n > 0 {
        step_preserves_wf(s);
        match s.step() {
            Ok(next) => run_preserves_wf(next, (n - 1) as nat),
            Err(_) => {},
        }
    }
}

/// A run of `a + b` instructions is a run of `a` followed, unless it
/// faulted, by a run of `b`.
pub proof fn run_splits(s: State, a: nat, b: nat)
    ensures
        s.run(a + b) == if s.run(a).1 is None {
            s.run(a).0.run(b)
        } else {
            s.run(a)
        },
    decreases a,
{
    if a > 0 {
        match s.step() {
            Ok(next) => {
                run_splits(next, (a - 1) as nat, b);
                assert((a - 1) as nat + b == (a + b - 1) as nat);
            },
            Err(_) => {},
        }
    }
}

/// In a program store that holds nothing but NOP, `n` steps move the program
/// counter on by `n`, around the end of the store, and change nothing else.
pub proof fn nop_program_only_counts(s: State, n: nat)
    requires
        s.wf(),
        forall|a: int| 0 <= a < 4096 ==> high(#[trigger] s.hardware.rom.words[a]) == 0,
    ensures
        s.run(n) == (moved(s, n), None::<Fault>),
    decreases n,
{
    if n > 0 {
        assert(s.step() == Ok::<State, Fault>(moved(s, 1)));
        nop_program_only_counts(moved(s, 1), (n - 1) as nat);
        assert(moved(moved(s, 1), (n - 1) as nat) == moved(s, n));
    } else {
        assert(moved(s, 0) == s);
    }
}

/// LDM `v`, XCH `r`, LD `r` in a row leave `v` in the accumulator and in
/// register `r`, whatever they held, and nothing else changed but the program
/// counter. The register is zero afterwards exactly when `v` is.
pub proof fn ldm_xch_ld_loads_both(s: State, r: u8, v: u8)
    requires
        s.wf(),
        r < 16,
        v < 16,
        word_at(s, 0) == 0xD0 + v,
        word_at(s, 1) == 0xB0 + r,
        word_at(s, 2) == 0xA0 + r,
    ensures
        s.run(3) == (
            State {
                accumulator: v,
                index_registers: s.index_registers.update(r as int, v),
                ..moved(s, 3)
            },
            None::<Fault>,
        ),
{
    reveal_with_fuel(State::run, 4);
    let s1 = State { accumulator: v, ..moved(s, 1) };
    let s2 = State {
        accumulator: s.index_registers[r as int],
        index_registers: s.index_registers.update(r as int, v),
        ..moved(s, 2)
    };
    assert(s.step() == Ok::<State, Fault>(s1));
    assert(s1.step() == Ok::<State, Fault>(s2));
    assert(s2.step() == Ok::<State, Fault>(
        State {
            accumulator: v,
            index_registers: s.index_registers.update(r as int, v),
            ..moved(s, 3)
        },
    ));
}

/// Two CMA in a row leave the accumulator, and everything but the program
/// counter, as it was.
pub proof fn cma_twice_restores(s: State)
    requires
        s.wf(),
        word_at(s, 0) == 0xF4,
        word_at(s, 1) == 0xF4,
    ensures
        s.run(2) == (moved(s, 2), None::<Fault>),
{
    reveal_with_fuel(State::run, 3);
    let s1 = State { accumulator: (15 - s.accumulator) as u8, ..moved(s, 1) };
    assert(s.step() == Ok::<State, Fault>(s1));
    assert(s1.step() == Ok::<State, Fault>(moved(s, 2)));
}

/// Two CMC in a row leave the carry, and everything but the program counter,
/// as it was.
pub proof fn cmc_twice_restores(s: State)
    requires
        s.wf(),
        word_at(s, 0) == 0xF3,
        word_at(s, 1) == 0xF3,
    ensures
        s.run(2) == (moved(s, 2), None::<Fault>),
{
    reveal_with_fuel(State::run, 3);
    let s1 = State { carry: !s.carry, ..moved(s, 1) };
    assert(s.step() == Ok::<State, Fault>(s1));
    assert(s1.step() == Ok::<State, Fault>(moved(s, 2)));
}

/// RAL followed by RAR leaves accumulator and carry, and everything but the
/// program counter, as they were.
pub proof fn ral_rar_restores(s: State)
    requires
        s.wf(),
        word_at(s, 0) == 0xF5,
        word_at(s, 1) == 0xF6,
    ensures
        s.run(2) == (moved(s, 2), None::<Fault>),
{
    reveal_with_fuel(State::run, 3);
    let s1 = moved(s, 1).opa_ral();
    assert(s.step() == Ok::<State, Fault>(s1));
    assert(s1.step() == Ok::<State, Fault>(moved(s, 2)));
}

/// RAR followed by RAL leaves accumulator and carry, and everything but the
/// program counter, as they were.
pub proof fn rar_ral_restores(s: State)
    requires
        s.wf(),
        word_at(s, 0) == 0xF6,
        word_at(s, 1) == 0xF5,
    ensures
        s.run(2) == (moved(s, 2), None::<Fault>),
{
    reveal_with_fuel(State::run, 3);
    let s1 = moved(s, 1).opa_rar();
    assert(s.step() == Ok::<State, Fault>(s1));
    assert(s1.step() == Ok::<State, Fault>(moved(s, 2)));
}

/// The state after one RAL.
#[verifier::opaque]
spec fn ral_once(s: State) -> State {
    moved(s.opa_ral(), 1)
}

/// The state after one RAR.
#[verifier::opaque]
spec fn rar_once(s: State) -> State {
    moved(s.opa_rar(), 1)
}

/// The state after `n` RAL in a row.
spec fn after_ral(s: State, n: nat) -> State
    decreases n,
{
    if n == 0 {
        s
    } else {
        after_ral(ral_once(s), (n - 1) as nat)
    }
}

/// The state after `n` RAR in a row.
spec fn after_rar(s: State, n: nat) -> State
    decreases n,
{
    if n == 0 {
        s
    } else {
        after_rar(rar_once(s), (n - 1) as nat)
    }
}

/// `n` RAL in a row run without a fault.
proof fn ral_runs(s: State, n: nat)
    requires
        s.wf(),
        forall|i: nat| i < n ==> word_at(s, i) == 0xF5,
    ensures
        s.run(n) == (after_ral(s, n), None::<Fault>),
    decreases n,
{
    reveal(ral_once);
    if n > 0 {
        let next = ral_once(s);
        assert(word_at(s, 0) == 0xF5);
        assert(s.step() == Ok::<State, Fault>(next));
        assert forall|i: nat| i < (n - 1) as nat implies word_at(next, i) == 0xF5 by {
            assert(word_at(next, i) == word_at(s, i + 1));
        }
        ral_runs(next, (n - 1) as nat);
    }
}

/// `n` RAR in a row run without a fault.
proof fn rar_runs(s: State, n: nat)
    requires
        s.wf(),
        forall|i: nat| i < n ==> word_at(s, i) == 0xF6,
    ensures
        s.run(n) == (after_rar(s, n), None::<Fault>),
    decreases n,
{
    reveal(rar_once);
    if n > 0 {
        let next = rar_once(s);
        assert(word_at(s, 0) == 0xF6);
        assert(s.step() == Ok::<State, Fault>(next));
        assert forall|i: nat| i < (n - 1) as nat implies word_at(next, i) == 0xF6 by {
            assert(word_at(next, i) == word_at(s, i + 1));
        }
        rar_runs(next, (n - 1) as nat);
    }
}

/// RAL doubles the accumulator, takes the old carry as its lowest bit and
/// moves its old highest bit to the carry.
proof fn ral_shifts(s: State)
    requires
        s.accumulator < 16,
        s.program_counter < 4096,
    ensures
        ral_once(s) == (State {
            accumulator: ral_once(s).accumulator,
            carry: s.accumulator >= 8,
            program_counter: ral_once(s).program_counter,
            ..s
        }),
        ral_once(s).accumulator == if s.accumulator < 8 {
            2 * s.accumulator + s.carry_in()
        } else {
            2 * s.accumulator + s.carry_in() - 16
        },
        ral_once(s).program_counter == if s.program_counter == 4095 {
            0
        } else {
            s.program_counter + 1
        },
{
    reveal(ral_once);
}

/// RAR halves the accumulator, takes the old carry as its highest bit and
/// moves its old lowest bit to the carry.
proof fn rar_shifts(s: State)
    requires
        s.accumulator < 16,
        s.program_counter < 4096,
    ensures
        rar_once(s) == (State {
            accumulator: rar_once(s).accumulator,
            carry: s.accumulator % 2 == 1,
            program_counter: rar_once(s).program_counter,
            ..s
        }),
        rar_once(s).accumulator == s.accumulator / 2 + 8 * s.carry_in(),
        rar_once(s).program_counter == if s.program_counter == 4095 {
            0
        } else {
            s.program_counter + 1
        },
{
    reveal(rar_once);
}

/// Five rotations to the left bring every bit back to its place.
proof fn ral_ring(s: State)
    requires
        s.accumulator < 16,
        s.program_counter < 4096,
    ensures
        after_ral(s, 5) == moved(s, 5),
{
    reveal_with_fuel(after_ral, 6);
    let s1 = ral_once(s);
    let s2 = ral_once(s1);
    let s3 = ral_once(s2);
    let s4 = ral_once(s3);
    ral_shifts(s);
    ral_shifts(s1);
    ral_shifts(s2);
    ral_shifts(s3);
    ral_shifts(s4);
}

/// Five rotations to the right bring every bit back to its place.
proof fn rar_ring(s: State)
    requires
        s.accumulator < 16,
        s.program_counter < 4096,
    ensures
        after_rar(s, 5) == moved(s, 5),
{
    reveal_with_fuel(after_rar, 6);
    let s1 = rar_once(s);
    let s2 = rar_once(s1);
    let s3 = rar_once(s2);
    let s4 = rar_once(s3);
    rar_shifts(s);
    rar_shifts(s1);
    rar_shifts(s2);
    rar_shifts(s3);
    rar_shifts(s4);
}

/// The four accumulator bits and the carry form a ring of five: five RAL in
/// a row leave accumulator and carry, and everything but the program counter,
/// as they were.
pub proof fn ral_five_times_restores(s: State)
    requires
        s.wf(),
        forall|i: nat| i < 5 ==> word_at(s, i) == 0xF5,
    ensures
        s.run(5) == (moved(s, 5), None::<Fault>),
{
    ral_runs(s, 5);
    ral_ring(s);
}

/// Five RAR in a row leave accumulator and carry, and everything but the
/// program counter, as they were.
pub proof fn rar_five_times_restores(s: State)
    requires
        s.wf(),
        forall|i: nat| i < 5 ==> word_at(s, i) == 0xF6,
    ensures
        s.run(5) == (moved(s, 5), None::<Fault>),
{
    rar_runs(s, 5);
    rar_ring(s);
}

/// A JMS pushes the address of the instruction behind it and does not fault.
pub proof fn jms_pushes_return_address(s: State)
    requires
        high(s.word()) == 5,
    ensures
        s.step() is Ok,
        s.step()->Ok_0.stack == pushed(s.stack, return_address(s)),
{
}

/// After `k` JMS in a row, `k` at least 3, exactly the three newest return
/// addresses are kept, newest first; older ones are lost.
pub proof fn jms_keeps_three_newest(s: State, k: nat)
    requires
        k >= 3,
        forall|i: nat| i < k ==> high((#[trigger] s.run(i)).0.word()) == 5,
    ensures
        s.run(k).1 is None,
        s.run(k).0.stack == seq![
            return_address(s.run((k - 1) as nat).0),
            return_address(s.run((k - 2) as nat).0),
            return_address(s.run((k - 3) as nat).0),
        ],
{
    jms_run_does_not_fault(s, k, k);
    jms_run_does_not_fault(s, k, (k - 1) as nat);
    jms_run_does_not_fault(s, k, (k - 2) as nat);
    jms_run_does_not_fault(s, k, (k - 3) as nat);
    let s0 = s.run((k - 3) as nat).0;
    let s1 = s.run((k - 2) as nat).0;
    let s2 = s.run((k - 1) as nat).0;
    let s3 = s.run(k).0;
    run_splits(s, (k - 3) as nat, 1);
    run_splits(s, (k - 2) as nat, 1);
    run_splits(s, (k - 1) as nat, 1);
    assert((k - 3) as nat + 1 == (k - 2) as nat);
    assert((k - 2) as nat + 1 == (k - 1) as nat);
    assert((k - 1) as nat + 1 == k);
    reveal_with_fuel(State::run, 2);
    jms_pushes_return_address(s0);
    jms_pushes_return_address(s1);
    jms_pushes_return_address(s2);
    assert(s0.step() == Ok::<State, Fault>(s1));
    assert(s1.step() == Ok::<State, Fault>(s2));
    assert(s2.step() == Ok::<State, Fault>(s3));
}

/// None of the first `i` of `k` JMS in a row faults.
proof fn jms_run_does_not_fault(s: State, k: nat, i: nat)
    requires
        i <= k,
        forall|j: nat| j < k ==> high((#[trigger] s.run(j)).0.word()) == 5,
    ensures
        s.run(i).1 is None,
    decreases i,
{
    if i > 0 {
        jms_run_does_not_fault(s, k, (i - 1) as nat);
        run_splits(s, (i - 1) as nat, 1);
        assert((i - 1) as nat + 1 == i);
        reveal_with_fuel(State::run, 2);
        jms_pushes_return_address(s.run((i - 1) as nat).0);
    }
}

} // verus!
