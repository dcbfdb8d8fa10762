//! Laws of the instruction set, stated over the machine's mathematical
//! model and proved once and for all.

use vstd::prelude::*;

use crate::decode::{op_c, op_d, op_nnn, op_x, op_y};
use crate::machine::{
    spec_add, spec_add_flag, spec_add_sum, spec_run_n, spec_step_result, spec_step_state, view_wf,
    word_at, word_at_addr, MachineView, RunState, VmError,
};

verus! {

/// ADD is commutative in what it computes: the wraparound sum and the
/// carry flag are the same whichever way the two operands are named.
/// (Which register receives the sum is of course not symmetric.)
pub proof fn lemma_add_commutes(regs: Seq<u8>, x: u8, y: u8)
    requires
        regs.len() == 16,
        x < 16,
        y < 16,
    ensures
        spec_add_sum(regs, x, y) == spec_add_sum(regs, y, x),
        spec_add_flag(regs, x, y) == spec_add_flag(regs, y, x),
{
}

/// The flag write comes after the sum write: register 0xF always ends up
/// holding the flag, and the sum is observable in `x` only when `x` is
/// not the flag register itself. Both operands are read before either
/// write, so the outcome is fixed by the pre-update register file even
/// when `x == y` or one of them is 0xF.
pub proof fn lemma_flag_written_last(regs: Seq<u8>, x: u8, y: u8)
    requires
        regs.len() == 16,
        x < 16,
        y < 16,
    ensures
        spec_add(regs, x, y)[0xF] == spec_add_flag(regs, x, y),
        x != 0xF ==> spec_add(regs, x, y)[x as int] == spec_add_sum(regs, x, y),
        forall|i: int| 0 <= i < 16 && i != x && i != 0xF ==> spec_add(regs, x, y)[i] == regs[i],
{
}

/// CALL/RETURN round trip: a CALL with room on the stack followed by a
/// RETURN at the called address brings the program counter to the
/// instruction after the CALL and the stack pointer back to its
/// pre-CALL value, with registers and memory untouched.
pub proof fn lemma_call_return_round_trip(m: MachineView)
    requires
        view_wf(m),
        m.pc + 1 < 4096,
        op_c(word_at(m)) == 2,
        m.sp < 16,
        op_nnn(word_at(m)) + 1 < 4096,
        word_at_addr(m.mem, op_nnn(word_at(m))) == 0x00EE,
    ensures
        spec_step_result(m) == Ok::<RunState, VmError>(RunState::Running),
        spec_step_result(spec_run_n(m, 1)) == Ok::<RunState, VmError>(RunState::Running),
        spec_run_n(m, 2).pc == m.pc + 2,
        spec_run_n(m, 2).sp == m.sp,
        spec_run_n(m, 2).regs == m.regs,
        spec_run_n(m, 2).mem == m.mem,
{
    let w = word_at(m);
    let nnn = op_nnn(w);
    assert(spec_step_result(m) == Ok::<RunState, VmError>(RunState::Running));
    let m1 = spec_step_state(m);
    assert(m1 == (MachineView {
        stack: m.stack.update(m.sp as int, (m.pc + 2) as u16),
        sp: (m.sp + 1) as nat,
        pc: nnn,
        ..m
    }));
    assert(word_at(m1) == 0x00EE);
    assert(op_c(0x00EE) == 0 && op_x(0x00EE) == 0 && op_y(0x00EE) == 0xE && op_d(0x00EE) == 0xE);
    assert(spec_step_result(m1) == Ok::<RunState, VmError>(RunState::Running));
    let m2 = spec_step_state(m1);
    assert(m1.stack[m.sp as int] == (m.pc + 2) as u16);
    assert(m2 == (MachineView { pc: (m.pc + 2) as u16, sp: m.sp, ..m1 }));
    assert(spec_run_n(m, 0) == m);
    assert(spec_run_n(m, 1) == m1);
    assert(spec_run_n(m, 2) == m2);
}

/// Stepping preserves well-formedness: the containers keep their fixed
/// sizes, the stack pointer stays within the stack, and every occupied
/// slot keeps holding a return address into memory. So every state a
/// run passes through is well-formed.
pub proof fn lemma_step_preserves_wf(m: MachineView)
    requires
        view_wf(m),
    ensures
        view_wf(spec_step_state(m)),
{
}

/// A CALL with room on the stack succeeds: it saves the address of the
/// following instruction in the next free slot, deepens the stack by
/// one, and jumps to the instruction's address field. Repeated from an
/// empty stack, this is exactly why nested calls succeed up to the
/// stack's capacity.
pub proof fn lemma_call_succeeds_with_room(m: MachineView)
    requires
        view_wf(m),
        m.pc + 1 < 4096,
        op_c(word_at(m)) == 2,
        m.sp < 16,
    ensures
        spec_step_result(m) == Ok::<RunState, VmError>(RunState::Running),
        spec_step_state(m).sp == m.sp + 1,
        spec_step_state(m).stack == m.stack.update(m.sp as int, (m.pc + 2) as u16),
        spec_step_state(m).pc == op_nnn(word_at(m)),
        spec_step_state(m).regs == m.regs,
        spec_step_state(m).mem == m.mem,
{
}

/// A CALL with a full stack reports a stack overflow and leaves the
/// state unchanged from just before the failed push: the fetch had
/// already advanced the program counter past the CALL word, and nothing
/// else — stack, stack pointer, registers, memory — moves.
pub proof fn lemma_overflow_leaves_state(m: MachineView)
    requires
        view_wf(m),
        m.pc + 1 < 4096,
        op_c(word_at(m)) == 2,
        m.sp == 16,
    ensures
        spec_step_result(m) == Err::<RunState, VmError>(VmError::StackOverflow),
        spec_step_state(m) == (MachineView { pc: (m.pc + 2) as u16, ..m }),
{
}

/// A RETURN with an empty stack reports a stack underflow and mutates
/// nothing beyond the completed fetch's advance: in particular the
/// program counter is not loaded from the stack, and stack, stack
/// pointer, registers and memory are untouched.
pub proof fn lemma_underflow_leaves_state(m: MachineView)
    requires
        view_wf(m),
        m.pc + 1 < 4096,
        op_c(word_at(m)) == 0,
        op_x(word_at(m)) == 0,
        op_y(word_at(m)) == 0xE,
        op_d(word_at(m)) == 0xE,
        m.sp == 0,
    ensures
        spec_step_result(m) == Err::<RunState, VmError>(VmError::StackUnderflow),
        spec_step_state(m) == (MachineView { pc: (m.pc + 2) as u16, ..m }),
        spec_step_state(m).sp == m.sp,
        spec_step_state(m).stack == m.stack,
{
}

} // verus!
