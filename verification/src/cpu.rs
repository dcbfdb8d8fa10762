//! The reduced machine: one held instruction word and two registers.
//!
//! This is the smallest demonstration of decode-and-execute: no memory,
//! no program counter, no call stack, and ADD is the only operation its
//! dispatcher knows. The full machine lives in [`crate::machine`].

use vstd::pervasive::VecAdditionalExecFns;
use vstd::prelude::*;

use crate::decode::{decode, op_c, op_d, op_x, op_y};

verus! {

/// A machine holding a single instruction word and two 8-bit registers.
///
/// Unlike the full machine there is no flag register here, so its ADD has
/// no carry-out to record and must not overflow 8 bits.
pub struct CPU {
    /// The one instruction the machine will execute.
    pub current_operation: u16,
    /// Two general-purpose 8-bit registers.
    pub registers: Vec<u8>,
}

impl CPU {
    /// Well-formedness: exactly two registers.
    pub open spec fn wf(self) -> bool {
        self.registers@.len() == 2
    }

    /// A machine with a zero operation word and zeroed registers.
    pub fn new() -> (cpu: CPU)
        ensures
            cpu.wf(),
            cpu.current_operation == 0,
            cpu.registers@ == seq![0u8, 0u8],
    {
        let mut registers: Vec<u8> = Vec::new();
        registers.push(0);
        registers.push(0);
        assert(registers@ =~= seq![0u8, 0u8]);
        CPU { current_operation: 0, registers }
    }

    /// Fetch the held instruction word.
    pub fn read_opcode(&self) -> (op: u16)
        ensures
            op == self.current_operation,
    {
        self.current_operation
    }

    /// `ADD reg[x] += reg[y]`. With no flag register to receive a
    /// carry-out, the sum must fit in 8 bits.
    pub fn add_xy(&mut self, x: u8, y: u8)
        requires
            old(self).wf(),
            x < 2,
            y < 2,
            old(self).registers@[x as int] + old(self).registers@[y as int] <= 255,
        ensures
            final(self).wf(),
            final(self).current_operation == old(self).current_operation,
            final(self).registers@ == old(self).registers@.update(
                x as int,
                (old(self).registers@[x as int] + old(self).registers@[y as int]) as u8,
            ),
    {
        let sum = self.registers[x as usize] + self.registers[y as usize];
        self.registers.set(x as usize, sum);
    }

    /// Decode the held word and execute it. ADD is the only operation
    /// this dispatcher implements, so the word must decode to
    /// `(8, x, y, 4)` with both register indices in range and a sum that
    /// fits in 8 bits.
    pub fn run(&mut self)
        requires
            old(self).wf(),
            op_c(old(self).current_operation) == 8,
            op_d(old(self).current_operation) == 4,
            op_x(old(self).current_operation) < 2,
            op_y(old(self).current_operation) < 2,
            old(self).registers@[op_x(old(self).current_operation) as int] + old(
                self,
            ).registers@[op_y(old(self).current_operation) as int] <= 255,
        ensures
            final(self).wf(),
            final(self).current_operation == old(self).current_operation,
            final(self).registers@ == old(self).registers@.update(
                op_x(old(self).current_operation) as int,
                (old(self).registers@[op_x(old(self).current_operation) as int] + old(
                    self,
                ).registers@[op_y(old(self).current_operation) as int]) as u8,
            ),
    {
        let opcode = self.read_opcode();
        let (c, x, y, d, _nnn) = decode(opcode);
        match (c, x, y, d) {
            (0x8, _, _, 0x4) => self.add_xy(x, y),
            _ => {
                proof {
                    assert(false);
                }
            },
        }
    }
}

/// The worked example for the reduced machine: `ADD r0, r1` with
/// `r0 = 5, r1 = 10` leaves `r0 == 15`.
pub fn cpu_sample() -> (cpu: CPU)
    ensures
        cpu.wf(),
        cpu.registers@[0] == 15,
        cpu.registers@[1] == 10,
{
    let mut cpu = CPU::new();
    cpu.current_operation = 0x8014;
    cpu.registers.set(0, 5);
    cpu.registers.set(1, 10);
    cpu.run();
    cpu
}

} // verus!
