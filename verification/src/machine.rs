//! The machine: memory, registers, call stack, and the dispatcher.
//!
//! `CPUMemory` owns the whole machine state: 4096 bytes of memory, sixteen
//! 8-bit registers (register 0xF doubles as the overflow flag), a 16-bit
//! program counter, and a sixteen-entry call stack with an explicit stack
//! pointer. One `step` fetches the big-endian word at the program counter,
//! decodes it, and applies exactly one of HALT, RETURN, CALL or ADD; `run`
//! loops `step` until the machine halts or a fatal condition is reported.
//!
//! Every fatal condition is a value of [`VmError`], and a fault applies
//! no effect of the instruction itself: an out-of-bounds fetch leaves
//! the machine exactly as it was, and a fault after a completed fetch
//! leaves only the fetch's advance of the program counter, which then
//! sits 2 past the offending word.

use vstd::pervasive::VecAdditionalExecFns;
use vstd::prelude::*;

use crate::decode::{decode, op_c, op_d, op_nnn, op_x, op_y};

verus! {

/// The fatal conditions. None is ever swallowed: each aborts the run loop
/// and is surfaced to the caller.
#[derive(Clone, Copy, Debug, PartialEq, Eq, Structural)]
pub enum VmError {
    /// A fetch would read past the end of memory.
    OutOfBoundsFetch,
    /// The decoded fields match no known operation; carries the raw word.
    UnimplementedOpcode(u16),
    /// A CALL was attempted with a full call stack.
    StackOverflow,
    /// A RETURN was attempted with an empty call stack.
    StackUnderflow,
}

/// The two states of the dispatcher: a step either keeps the machine
/// running or reaches the halt instruction.
#[derive(Clone, Copy, Debug, PartialEq, Eq, Structural)]
pub enum RunState {
    Running,
    Halted,
}

/// The mathematical model of the machine state.
#[verifier::ext_equal]
pub ghost struct MachineView {
    pub regs: Seq<u8>,
    pub pc: u16,
    pub mem: Seq<u8>,
    pub stack: Seq<u16>,
    pub sp: nat,
}

/// Well-formedness: the three containers have their fixed sizes, the stack
/// pointer counts at most the whole stack, and every occupied stack slot
/// holds a return address into memory (a CALL only ever pushes such an
/// address, and nothing else writes the stack).
pub open spec fn view_wf(m: MachineView) -> bool {
    &&& m.regs.len() == 16
    &&& m.mem.len() == 4096
    &&& m.stack.len() == 16
    &&& m.sp <= 16
    &&& forall|i: int| 0 <= i < m.sp ==> m.stack[i] <= 4096
}

/// The big-endian 16-bit word at `addr`: high byte at the lower address.
pub open spec fn word_at_addr(mem: Seq<u8>, addr: u16) -> u16 {
    ((mem[addr as int] as int) * 256 + (mem[addr as int + 1] as int)) as u16
}

/// The instruction word at the program counter.
pub open spec fn word_at(m: MachineView) -> u16 {
    word_at_addr(m.mem, m.pc)
}

/// The value ADD writes to register `x`: the 8-bit wraparound sum of the
/// pre-update operands.
pub open spec fn spec_add_sum(regs: Seq<u8>, x: u8, y: u8) -> u8 {
    ((regs[x as int] + regs[y as int]) % 256) as u8
}

/// The value ADD writes to the overflow flag: 1 exactly when the sum of
/// the pre-update operands exceeds 8 bits.
pub open spec fn spec_add_flag(regs: Seq<u8>, x: u8, y: u8) -> u8 {
    if regs[x as int] + regs[y as int] > 255 {
        1u8
    } else {
        0u8
    }
}

/// The register file after `ADD reg[x] += reg[y]`: both operands are read
/// first, then the sum is written to `x`, then the flag to 0xF. The flag
/// write comes last, so with `x == 0xF` it overwrites the sum.
pub open spec fn spec_add(regs: Seq<u8>, x: u8, y: u8) -> Seq<u8> {
    regs.update(x as int, spec_add_sum(regs, x, y)).update(0xF, spec_add_flag(regs, x, y))
}

/// What one step reports: `Ok(Running)`, `Ok(Halted)`, or the fatal
/// condition, judged from the current state alone.
pub open spec fn spec_step_result(m: MachineView) -> Result<RunState, VmError> {
    if !(m.pc + 1 < m.mem.len()) {
        Err(VmError::OutOfBoundsFetch)
    } else {
        let w = word_at(m);
        if op_c(w) == 0 && op_x(w) == 0 && op_y(w) == 0 && op_d(w) == 0 {
            Ok(RunState::Halted)
        } else if op_c(w) == 0 && op_x(w) == 0 && op_y(w) == 0xE && op_d(w) == 0xE {
            if m.sp == 0 {
                Err(VmError::StackUnderflow)
            } else {
                Ok(RunState::Running)
            }
        } else if op_c(w) == 2 {
            if m.sp >= m.stack.len() {
                Err(VmError::StackOverflow)
            } else {
                Ok(RunState::Running)
            }
        } else if op_c(w) == 8 && op_d(w) == 4 {
            Ok(RunState::Running)
        } else {
            Err(VmError::UnimplementedOpcode(w))
        }
    }
}

/// The state after one step. The fetch itself advances the program
/// counter by 2; a fetch that would read past the end of memory fails
/// before that and leaves everything untouched. After a completed fetch
/// the dispatcher applies exactly one instruction in full or, on a fatal
/// condition, nothing beyond the fetch's advance: HALT keeps just the
/// advance, RETURN pops into the program counter, CALL saves the current
/// (advanced) counter and jumps, ADD updates register `x` and the
/// overflow flag.
pub open spec fn spec_step_state(m: MachineView) -> MachineView {
    if !(m.pc + 1 < m.mem.len()) {
        m
    } else {
        let w = word_at(m);
        let fetched = MachineView { pc: (m.pc + 2) as u16, ..m };
        if op_c(w) == 0 && op_x(w) == 0 && op_y(w) == 0 && op_d(w) == 0 {
            fetched
        } else if op_c(w) == 0 && op_x(w) == 0 && op_y(w) == 0xE && op_d(w) == 0xE {
            if m.sp == 0 {
                fetched
            } else {
                MachineView { pc: m.stack[m.sp as int - 1], sp: (m.sp - 1) as nat, ..fetched }
            }
        } else if op_c(w) == 2 {
            if m.sp >= m.stack.len() {
                fetched
            } else {
                MachineView {
                    stack: m.stack.update(m.sp as int, fetched.pc),
                    sp: (m.sp + 1) as nat,
                    pc: op_nnn(w),
                    ..m
                }
            }
        } else if op_c(w) == 8 && op_d(w) == 4 {
            MachineView { regs: spec_add(m.regs, op_x(w), op_y(w)), ..fetched }
        } else {
            fetched
        }
    }
}

/// The state after `n` steps.
pub open spec fn spec_run_n(m: MachineView, n: nat) -> MachineView
    decreases n,
{
    if n == 0 {
        m
    } else {
        spec_step_state(spec_run_n(m, (n - 1) as nat))
    }
}

/// The first `n` steps from `m` all keep the machine running.
pub open spec fn runs_until(m: MachineView, n: nat) -> bool {
    forall|i: nat|
        i < n ==> spec_step_result(#[trigger] spec_run_n(m, i)) == Ok::<RunState, VmError>(
            RunState::Running,
        )
}

/// A complete run from `m0`: `n` steps kept the machine running, the step
/// after them reported `Ok(Halted)` (when the run returned `Ok`) or the
/// fatal condition the run surfaced (when it returned `Err`), and `m1` is
/// the state after that last step — on a fault, the state just before it
/// with at most the completed fetch's advance applied.
pub open spec fn run_trace(
    m0: MachineView,
    m1: MachineView,
    r: Result<(), VmError>,
    n: nat,
) -> bool {
    &&& runs_until(m0, n)
    &&& m1 == spec_run_n(m0, n + 1)
    &&& (match r {
        Ok(()) => spec_step_result(spec_run_n(m0, n)) == Ok::<RunState, VmError>(RunState::Halted),
        Err(e) => spec_step_result(spec_run_n(m0, n)) == Err::<RunState, VmError>(e),
    })
}

/// What `run` guarantees: some step count witnesses a complete run.
pub open spec fn run_ends(m0: MachineView, m1: MachineView, r: Result<(), VmError>) -> bool {
    exists|n: nat| #[trigger] run_trace(m0, m1, r, n)
}

/// A run has exactly one end: the step count at which the machine first
/// stops running is unique.
pub proof fn lemma_stop_unique(m: MachineView, n1: nat, n2: nat)
    requires
        runs_until(m, n1),
        runs_until(m, n2),
        spec_step_result(spec_run_n(m, n1)) != Ok::<RunState, VmError>(RunState::Running),
        spec_step_result(spec_run_n(m, n2)) != Ok::<RunState, VmError>(RunState::Running),
    ensures
        n1 == n2,
{
    if n1 < n2 {
        assert(spec_step_result(spec_run_n(m, n1)) == Ok::<RunState, VmError>(RunState::Running));
    } else if n2 < n1 {
        assert(spec_step_result(spec_run_n(m, n2)) == Ok::<RunState, VmError>(RunState::Running));
    }
}

/// Termination measure for the run loop, one component per call-stack
/// level. An occupied slot weighs by its saved return address, the level
/// at the stack pointer by the program counter, deeper levels nothing.
/// ADD and HALT shrink the current level by two, a CALL turns the current
/// level's program-counter digit into the strictly smaller saved-address
/// digit, and a RETURN does the reverse one level down; so each step that
/// keeps running shrinks the sequence of digits lexicographically.
pub open spec fn level_digit(m: MachineView, i: int) -> int {
    if 0 <= i < m.sp {
        if m.stack[i] <= 4096 {
            4098 - m.stack[i]
        } else {
            0
        }
    } else if i == m.sp {
        if m.pc <= 4097 {
            4097 - m.pc
        } else {
            0
        }
    } else {
        0
    }
}

/// The machine state, owned exclusively and mutated in place.
///
/// The fields are public: an external loader fills `memory` (and possibly
/// `registers` and `position_in_memory`) before the first step, and the
/// caller reads them back afterwards; that is the whole inspection
/// surface. The verified operations ask for [`CPUMemory::wf`], which
/// [`CPUMemory::new`] establishes and every operation preserves.
pub struct CPUMemory {
    /// Sixteen general-purpose 8-bit registers; index 0xF doubles as the
    /// overflow flag.
    pub registers: Vec<u8>,
    /// Byte offset into `memory` of the next instruction to fetch.
    pub position_in_memory: u16,
    /// 4096 bytes holding the loaded program and its data.
    pub memory: Vec<u8>,
    /// Sixteen saved return addresses.
    pub stack: Vec<u16>,
    /// Count of occupied stack slots.
    pub stack_pointer: usize,
}

impl View for CPUMemory {
    type V = MachineView;

    open spec fn view(&self) -> MachineView {
        MachineView {
            regs: self.registers@,
            pc: self.position_in_memory,
            mem: self.memory@,
            stack: self.stack@,
            sp: self.stack_pointer as nat,
        }
    }
}

/// A vector of `n` zero bytes.
fn zeroed_bytes(n: usize) -> (v: Vec<u8>)
    ensures
        v@.len() == n,
        forall|i: int| 0 <= i < n ==> v@[i] == 0,
{
    let mut v: Vec<u8> = Vec::new();
    let mut k: usize = 0;
    while k < n
        invariant
            k <= n,
            v@.len() == k,
            forall|i: int| 0 <= i < k ==> v@[i] == 0,
        decreases n - k,
    {
        v.push(0);
        k = k + 1;
    }
    v
}

/// A vector of `n` zero addresses.
fn zeroed_addrs(n: usize) -> (v: Vec<u16>)
    ensures
        v@.len() == n,
        forall|i: int| 0 <= i < n ==> v@[i] == 0,
{
    let mut v: Vec<u16> = Vec::new();
    let mut k: usize = 0;
    while k < n
        invariant
            k <= n,
            v@.len() == k,
            forall|i: int| 0 <= i < k ==> v@[i] == 0,
        decreases n - k,
    {
        v.push(0);
        k = k + 1;
    }
    v
}

impl CPUMemory {
    /// Well-formedness of the owned state; see [`view_wf`].
    pub open spec fn wf(self) -> bool {
        view_wf(self@)
    }

    /// A machine with zeroed memory, registers and stack, ready for a
    /// loader to fill.
    pub fn new() -> (cpu: CPUMemory)
        ensures
            cpu.wf(),
            cpu@.pc == 0,
            cpu@.sp == 0,
            forall|i: int| 0 <= i < 16 ==> cpu@.regs[i] == 0,
            forall|i: int| 0 <= i < 4096 ==> cpu@.mem[i] == 0,
            forall|i: int| 0 <= i < 16 ==> cpu@.stack[i] == 0,
    {
        CPUMemory {
            registers: zeroed_bytes(16),
            position_in_memory: 0,
            memory: zeroed_bytes(4096),
            stack: zeroed_addrs(16),
            stack_pointer: 0,
        }
    }

    /// Fetch the big-endian instruction word at the program counter.
    /// The caller must have checked the fetch is in bounds; the dispatcher
    /// reports [`VmError::OutOfBoundsFetch`] where it is not.
    pub fn read_opcode(&self) -> (op: u16)
        requires
            self.wf(),
            self.position_in_memory + 1 < 4096,
        ensures
            op == word_at(self@),
    {
        let p = self.position_in_memory as usize;
        let op_byte1 = self.memory[p] as u16;
        let op_byte2 = self.memory[p + 1] as u16;
        let op = (op_byte1 << 8) | op_byte2;
        proof {
            let b1 = self@.mem[self.position_in_memory as int] as u16;
            let b2 = self@.mem[self.position_in_memory as int + 1] as u16;
            assert((b1 << 8) | b2 == b1 * 256 + b2) by (bit_vector)
                requires
                    b1 < 256,
                    b2 < 256,
            ;
        }
        op
    }

    /// `ADD reg[x] += reg[y]`: 8-bit wraparound addition. Both operands
    /// are read first; the sum is written to `x`, then the overflow flag
    /// (1 on carry-out, else 0) to register 0xF. The flag write comes
    /// last, so it may overwrite the sum just written when `x == 0xF`.
    pub fn add_xy(&mut self, x: u8, y: u8)
        requires
            old(self).wf(),
            x < 16,
            y < 16,
        ensures
            final(self).wf(),
            final(self)@ == (MachineView { regs: spec_add(old(self)@.regs, x, y), ..old(self)@ }),
    {
        let arg1 = self.registers[x as usize];
        let arg2 = self.registers[y as usize];
        let sum: u16 = arg1 as u16 + arg2 as u16;
        let val: u8 = (sum % 256) as u8;
        let overflow: bool = sum > 255;
        self.registers.set(x as usize, val);
        if overflow {
            self.registers.set(0xF, 1);
        } else {
            self.registers.set(0xF, 0);
        }
    }

    /// CALL: save the current program counter and jump to `addr`. The
    /// dispatcher advances the counter as part of the fetch, so by the
    /// time CALL executes the counter already names the instruction
    /// after the CALL word, and that is what lands on the stack (hence
    /// the bound: it must be a valid return address into memory).
    /// Fails with [`VmError::StackOverflow`], leaving the machine
    /// untouched, exactly when the stack is full; succeeds exactly
    /// otherwise.
    pub fn call(&mut self, addr: u16) -> (r: Result<(), VmError>)
        requires
            old(self).wf(),
            old(self).position_in_memory <= 4096,
        ensures
            final(self).wf(),
            old(self)@.sp == 16 ==> r == Err::<(), VmError>(VmError::StackOverflow)
                && final(self)@ == old(self)@,
            old(self)@.sp < 16 ==> r == Ok::<(), VmError>(()) && final(self)@ == (MachineView {
                stack: old(self)@.stack.update(old(self)@.sp as int, old(self).position_in_memory),
                sp: (old(self)@.sp + 1) as nat,
                pc: addr,
                ..old(self)@
            }),
    {
        let sp = self.stack_pointer;
        if sp >= 16 {
            return Err(VmError::StackOverflow);
        }
        self.stack.set(sp, self.position_in_memory);
        self.stack_pointer = sp + 1;
        self.position_in_memory = addr;
        Ok(())
    }

    /// RETURN: pop one saved address off the call stack into the program
    /// counter. Fails with [`VmError::StackUnderflow`], leaving the
    /// machine untouched (in particular the program counter), exactly
    /// when the stack is empty; succeeds exactly otherwise.
    pub fn ret(&mut self) -> (r: Result<(), VmError>)
        requires
            old(self).wf(),
        ensures
            final(self).wf(),
            old(self)@.sp == 0 ==> r == Err::<(), VmError>(VmError::StackUnderflow)
                && final(self)@ == old(self)@,
            old(self)@.sp > 0 ==> r == Ok::<(), VmError>(()) && final(self)@ == (MachineView {
                pc: old(self)@.stack[old(self)@.sp as int - 1],
                sp: (old(self)@.sp - 1) as nat,
                ..old(self)@
            }),
    {
        if self.stack_pointer == 0 {
            return Err(VmError::StackUnderflow);
        }
        self.stack_pointer = self.stack_pointer - 1;
        let call_addr = self.stack[self.stack_pointer];
        self.position_in_memory = call_addr;
        Ok(())
    }

    /// One fetch-decode-execute step: exactly [`spec_step_state`] and
    /// [`spec_step_result`]. The fetch advances the program counter by 2
    /// before dispatch; a step that then reports an error has no effect
    /// beyond that advance, and a fetch that is out of bounds fails
    /// before it, with no effect at all.
    pub fn step(&mut self) -> (r: Result<RunState, VmError>)
        requires
            old(self).wf(),
        ensures
            final(self).wf(),
            final(self)@ == spec_step_state(old(self)@),
            r == spec_step_result(old(self)@),
    {
        if self.position_in_memory >= 4095 {
            return Err(VmError::OutOfBoundsFetch);
        }
        let opcode = self.read_opcode();
        self.position_in_memory = self.position_in_memory + 2;
        let (c, x, y, d, nnn) = decode(opcode);
        match (c, x, y, d) {
            (0, 0, 0, 0) => Ok(RunState::Halted),
            (0, 0, 0xE, 0xE) => {
                match self.ret() {
                    Ok(()) => Ok(RunState::Running),
                    Err(e) => Err(e),
                }
            },
            (0x2, _, _, _) => {
                match self.call(nnn) {
                    Ok(()) => Ok(RunState::Running),
                    Err(e) => Err(e),
                }
            },
            (0x8, _, _, 0x4) => {
                proof {
                    crate::decode::lemma_fields_bounded(word_at(old(self)@));
                }
                self.add_xy(x, y);
                Ok(RunState::Running)
            },
            _ => Err(VmError::UnimplementedOpcode(opcode)),
        }
    }

    /// Run to completion: loop [`CPUMemory::step`] until the machine
    /// halts (`Ok`) or a fatal condition is reported (`Err`, with no
    /// effect of the faulting instruction applied beyond its completed
    /// fetch). The final state is the unique end of the step chain from
    /// the initial state.
    pub fn run(&mut self) -> (r: Result<(), VmError>)
        requires
            old(self).wf(),
        ensures
            final(self).wf(),
            run_ends(old(self)@, final(self)@, r),
    {
        let ghost mut n: nat = 0;
        loop
            invariant
                self.wf(),
                self@ == spec_run_n(old(self)@, n),
                runs_until(old(self)@, n),
            decreases
                level_digit(self@, 0),
                level_digit(self@, 1),
                level_digit(self@, 2),
                level_digit(self@, 3),
                level_digit(self@, 4),
                level_digit(self@, 5),
                level_digit(self@, 6),
                level_digit(self@, 7),
                level_digit(self@, 8),
                level_digit(self@, 9),
                level_digit(self@, 10),
                level_digit(self@, 11),
                level_digit(self@, 12),
                level_digit(self@, 13),
                level_digit(self@, 14),
                level_digit(self@, 15),
                level_digit(self@, 16),
        {
            let ghost before = self@;
            let step_result = self.step();
            proof {
                assert(spec_run_n(old(self)@, n + 1) == spec_step_state(spec_run_n(old(self)@, n)));
            }
            match step_result {
                Ok(RunState::Running) => {
                    proof {
                        lemma_running_step_descends(before);
                        assert forall|i: nat| i < n + 1 implies spec_step_result(
                            #[trigger] spec_run_n(old(self)@, i),
                        ) == Ok::<RunState, VmError>(RunState::Running) by {
                            if i == n {
                                assert(spec_run_n(old(self)@, i) == before);
                            }
                        }
                        n = n + 1;
                    }
                },
                Ok(RunState::Halted) => {
                    proof {
                        assert(run_trace(old(self)@, self@, Ok::<(), VmError>(()), n));
                    }
                    return Ok(());
                },
                Err(e) => {
                    proof {
                        assert(run_trace(old(self)@, self@, Err::<(), VmError>(e), n));
                    }
                    return Err(e);
                },
            }
        }
    }
}

/// The worked multiplier example: registers start at `r0 = 5, r1 = 10`,
/// memory holds two CALLs to a routine at 0x100 that performs
/// `ADD r0, r1` twice and RETURNs, then HALT at 0x004. Running to the
/// halted state leaves `r0 == 45` with the call stack empty again.
#[verifier::rlimit(50)]
pub fn cpu_multiplier() -> (cpu: CPUMemory)
    ensures
        cpu.wf(),
        cpu@.regs[0] == 45,
        cpu@.sp == 0,
{
    let mut cpu = CPUMemory::new();
    cpu.registers.set(0, 5);
    cpu.registers.set(1, 10);
    cpu.memory.set(0x000, 0x21);
    cpu.memory.set(0x001, 0x00);
    cpu.memory.set(0x002, 0x21);
    cpu.memory.set(0x003, 0x00);
    cpu.memory.set(0x004, 0x00);
    cpu.memory.set(0x005, 0x00);
    cpu.memory.set(0x100, 0x80);
    cpu.memory.set(0x101, 0x14);
    cpu.memory.set(0x102, 0x80);
    cpu.memory.set(0x103, 0x14);
    cpu.memory.set(0x104, 0x00);
    cpu.memory.set(0x105, 0xEE);
    let ghost v0 = cpu@;
    let r = cpu.run();
    proof {
        lemma_multiplier_trace(v0);
        let n = choose|n: nat| #[trigger] run_trace(v0, cpu@, r, n);
        assert(spec_step_result(spec_run_n(v0, n)) != Ok::<RunState, VmError>(RunState::Running));
        lemma_stop_unique(v0, n, 8);
        assert(cpu@ == spec_run_n(v0, 9));
    }
    cpu
}

/// The step-by-step trace of the multiplier program: eight running steps
/// (CALL, ADD, ADD, RETURN, CALL, ADD, ADD, RETURN), then the HALT step,
/// after which register 0 holds 45 and the stack pointer is back to 0.
#[verifier::rlimit(100)]
pub proof fn lemma_multiplier_trace(v0: MachineView)
    requires
        view_wf(v0),
        v0.pc == 0,
        v0.sp == 0,
        v0.regs[0] == 5,
        v0.regs[1] == 10,
        v0.mem[0x000] == 0x21,
        v0.mem[0x001] == 0x00,
        v0.mem[0x002] == 0x21,
        v0.mem[0x003] == 0x00,
        v0.mem[0x004] == 0x00,
        v0.mem[0x005] == 0x00,
        v0.mem[0x100] == 0x80,
        v0.mem[0x101] == 0x14,
        v0.mem[0x102] == 0x80,
        v0.mem[0x103] == 0x14,
        v0.mem[0x104] == 0x00,
        v0.mem[0x105] == 0xEE,
    ensures
        runs_until(v0, 8),
        spec_step_result(spec_run_n(v0, 8)) == Ok::<RunState, VmError>(RunState::Halted),
        spec_run_n(v0, 9).regs[0] == 45,
        spec_run_n(v0, 9).sp == 0,
{
    // First CALL 0x100 at 0x000.
    assert(word_at(v0) == 0x2100);
    assert(op_c(0x2100) == 2 && op_nnn(0x2100) == 0x100);
    assert(spec_step_result(v0) == Ok::<RunState, VmError>(RunState::Running));
    let v1 = spec_step_state(v0);
    assert(v1 == (MachineView { stack: v0.stack.update(0, 2), sp: 1nat, pc: 0x100, ..v0 }));
    // ADD r0, r1 at 0x100: 5 + 10.
    assert(word_at(v1) == 0x8014);
    assert(op_c(0x8014) == 8 && op_x(0x8014) == 0 && op_y(0x8014) == 1 && op_d(0x8014) == 4);
    assert(spec_step_result(v1) == Ok::<RunState, VmError>(RunState::Running));
    let v2 = spec_step_state(v1);
    assert(v2 == (MachineView { regs: spec_add(v1.regs, 0, 1), pc: 0x102, ..v1 }));
    assert(v2.regs[0] == 15 && v2.regs[1] == 10);
    // ADD r0, r1 at 0x102: 15 + 10.
    assert(word_at(v2) == 0x8014);
    assert(spec_step_result(v2) == Ok::<RunState, VmError>(RunState::Running));
    let v3 = spec_step_state(v2);
    assert(v3 == (MachineView { regs: spec_add(v2.regs, 0, 1), pc: 0x104, ..v2 }));
    assert(v3.regs[0] == 25 && v3.regs[1] == 10);
    // RETURN at 0x104, back to 0x002.
    assert(word_at(v3) == 0x00EE);
    assert(op_c(0x00EE) == 0 && op_x(0x00EE) == 0 && op_y(0x00EE) == 0xE && op_d(0x00EE) == 0xE);
    assert(spec_step_result(v3) == Ok::<RunState, VmError>(RunState::Running));
    let v4 = spec_step_state(v3);
    assert(v4 == (MachineView { pc: 2, sp: 0nat, ..v3 }));
    // Second CALL 0x100 at 0x002.
    assert(word_at(v4) == 0x2100);
    assert(spec_step_result(v4) == Ok::<RunState, VmError>(RunState::Running));
    let v5 = spec_step_state(v4);
    assert(v5 == (MachineView { stack: v4.stack.update(0, 4), sp: 1nat, pc: 0x100, ..v4 }));
    // ADD r0, r1 at 0x100: 25 + 10.
    assert(word_at(v5) == 0x8014);
    assert(spec_step_result(v5) == Ok::<RunState, VmError>(RunState::Running));
    let v6 = spec_step_state(v5);
    assert(v6 == (MachineView { regs: spec_add(v5.regs, 0, 1), pc: 0x102, ..v5 }));
    assert(v6.regs[0] == 35 && v6.regs[1] == 10);
    // ADD r0, r1 at 0x102: 35 + 10.
    assert(word_at(v6) == 0x8014);
    assert(spec_step_result(v6) == Ok::<RunState, VmError>(RunState::Running));
    let v7 = spec_step_state(v6);
    assert(v7 == (MachineView { regs: spec_add(v6.regs, 0, 1), pc: 0x104, ..v6 }));
    assert(v7.regs[0] == 45 && v7.regs[1] == 10);
    // RETURN at 0x104, back to 0x004.
    assert(word_at(v7) == 0x00EE);
    assert(spec_step_result(v7) == Ok::<RunState, VmError>(RunState::Running));
    let v8 = spec_step_state(v7);
    assert(v8 == (MachineView { pc: 4, sp: 0nat, ..v7 }));
    // HALT at 0x004.
    assert(word_at(v8) == 0x0000);
    assert(spec_step_result(v8) == Ok::<RunState, VmError>(RunState::Halted));
    let v9 = spec_step_state(v8);
    assert(v9 == (MachineView { pc: 6, ..v8 }));
    // Chain the steps together.
    assert(spec_run_n(v0, 0) == v0);
    assert(spec_run_n(v0, 1) == v1);
    assert(spec_run_n(v0, 2) == v2);
    assert(spec_run_n(v0, 3) == v3);
    assert(spec_run_n(v0, 4) == v4);
    assert(spec_run_n(v0, 5) == v5);
    assert(spec_run_n(v0, 6) == v6);
    assert(spec_run_n(v0, 7) == v7);
    assert(spec_run_n(v0, 8) == v8);
    assert(spec_run_n(v0, 9) == v9);
    assert forall|i: nat| i < 8 implies spec_step_result(#[trigger] spec_run_n(v0, i)) == Ok::<
        RunState,
        VmError,
    >(RunState::Running) by {
        if i == 0 {
        } else if i == 1 {
        } else if i == 2 {
        } else if i == 3 {
        } else if i == 4 {
        } else if i == 5 {
        } else if i == 6 {
        } else {
            assert(i == 7);
        }
    }
    assert(v9.regs[0] == 45);
}

/// A step that keeps the machine running strictly shrinks the sequence of
/// level digits lexicographically: some level `j` shrinks and every level
/// before it is untouched. This is what bounds the run loop.
pub proof fn lemma_running_step_descends(m: MachineView)
    requires
        view_wf(m),
        spec_step_result(m) == Ok::<RunState, VmError>(RunState::Running),
    ensures
        exists|j: int|
            {
                &&& 0 <= j <= 16
                &&& #[trigger] level_digit(spec_step_state(m), j) < level_digit(m, j)
                &&& forall|i: int|
                    0 <= i < j ==> level_digit(spec_step_state(m), i) == level_digit(m, i)
            },
{
    let m2 = spec_step_state(m);
    let w = word_at(m);
    if op_c(w) == 0 && op_x(w) == 0 && op_y(w) == 0xE && op_d(w) == 0xE {
        // RETURN: the occupied slot at sp - 1 becomes the program-counter
        // digit for the popped address, two smaller.
        let j = m.sp as int - 1;
        assert(level_digit(m2, j) < level_digit(m, j));
        assert(forall|i: int| 0 <= i < j ==> level_digit(m2, i) == level_digit(m, i));
    } else if op_c(w) == 2 {
        // CALL: the program-counter digit at sp becomes the digit of the
        // saved return address, one smaller.
        let j = m.sp as int;
        assert(level_digit(m2, j) < level_digit(m, j));
        assert(forall|i: int| 0 <= i < j ==> level_digit(m2, i) == level_digit(m, i));
    } else {
        // ADD: the program counter advances by two at level sp.
        let j = m.sp as int;
        assert(level_digit(m2, j) < level_digit(m, j));
        assert(forall|i: int| 0 <= i < j ==> level_digit(m2, i) == level_digit(m, i));
    }
}

} // verus!
