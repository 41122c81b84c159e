//! The executable machine.
//!
//! Every function that changes a [`VM`] says in its contract which state of
//! the model ([`MachineState`]) the machine is in afterwards.
use vstd::prelude::*;
use crate::arith::{
    as_unsigned, lemma_negative_divisor, lemma_truncated_division_bounds, magnitude,
    truncated_quotient, truncated_remainder, wrap_i32,
};
use crate::instruction::Opcode;
use crate::model::{jump_target, MachineState, REGISTER_COUNT};
use crate::outcome::{StepOutcome, VmError};

verus! {

/// The most steps that [`VM::run`] takes before it gives up.
pub const STEP_LIMIT: u64 = 0xffff_ffff_ffff_ffff;

/// A machine. The host owns it, assigns `program`, and may read every field
/// after any step.
#[derive(Debug)]
pub struct VM {
    /// The register file.
    pub registers: [i32; REGISTER_COUNT],
    /// The index in `program` of the next byte to fetch.
    pub pc: usize,
    /// The bytecode. No step changes it.
    pub program: Vec<u8>,
    /// The remainder of the most recent `DIV`.
    pub remainder: u32,
    /// The result of the most recent comparison.
    pub equal_flag: bool,
    /// `Continue` while the machine runs; `Halted` or `IllegalOpcode` once such
    /// an instruction has stopped it.
    pub status: StepOutcome,
}

impl View for VM {
    type V = MachineState;

    open spec fn view(&self) -> MachineState {
        MachineState {
            registers: self.registers@,
            pc: self.pc as nat,
            program: self.program@,
            remainder: self.remainder,
            equal_flag: self.equal_flag,
            status: self.status,
        }
    }
}

impl VM {
    /// Every machine has its 32 registers.
    pub proof fn view_is_well_formed(self)
        ensures
            self@.wf(),
    {
    }

    /// A machine before its first step: all registers zero, no program.
    pub fn new() -> (vm: VM)
        ensures
            vm@ =~= MachineState::fresh(),
    {
        VM {
            registers: [0; REGISTER_COUNT],
            program: Vec::new(),
            pc: 0,
            remainder: 0,
            equal_flag: false,
            status: StepOutcome::Continue,
        }
    }

    /// A fresh machine with 5 in register 0 and 10 in register 1.
    pub fn get_test_vm() -> (vm: VM)
        ensures
            vm@ =~= (MachineState {
                registers: MachineState::fresh().registers.update(0, 5i32).update(1, 10i32),
                ..MachineState::fresh()
            }),
    {
        let mut test_vm = VM::new();
        test_vm.registers[0] = 5;
        test_vm.registers[1] = 10;
        test_vm
    }

    /// Runs the program until the machine stops or a step reports an error,
    /// and returns what that step reported. A machine that is still running
    /// after `STEP_LIMIT` steps is left there, and the result is `Continue`.
    pub fn run(&mut self) -> (result: Result<StepOutcome, VmError>)
        ensures
            result == old(self)@.run(STEP_LIMIT as nat).result,
            final(self)@ =~= old(self)@.run(STEP_LIMIT as nat).next,
    {
        self.run_steps(STEP_LIMIT)
    }

    /// Takes steps until one reports anything but `Continue`, and returns that
    /// report; after `limit` steps that all reported `Continue`, returns
    /// `Continue`.
    pub fn run_steps(&mut self, limit: u64) -> (result: Result<StepOutcome, VmError>)
        ensures
            result == old(self)@.run(limit as nat).result,
            final(self)@ =~= old(self)@.run(limit as nat).next,
    {
        let mut remaining = limit;
        while remaining > 0
            invariant
                self@.run(remaining as nat) == old(self)@.run(limit as nat),
            decreases remaining,
        {
            let result = self.execute_instruction();
            match result {
                Ok(StepOutcome::Continue) => {
                    remaining -= 1;
                },
                _ => {
                    return result;
                },
            }
        }
        Ok(StepOutcome::Continue)
    }

    /// Takes one step: one fetch-decode-execute cycle, unless the machine has
    /// stopped or the instruction is faulty.
    pub fn run_once(&mut self) -> (result: Result<StepOutcome, VmError>)
        ensures
            result == old(self)@.step().result,
            final(self)@ =~= old(self)@.step().next,
    {
        self.execute_instruction()
    }

    /// One fetch-decode-execute cycle.
    fn execute_instruction(&mut self) -> (result: Result<StepOutcome, VmError>)
        ensures
            result == old(self)@.step().result,
            final(self)@ =~= old(self)@.step().next,
    {
        match self.status {
            StepOutcome::Continue => {},
            stopped => {
                return Ok(stopped);
            },
        }
        if self.pc >= self.program.len() {
            return Ok(StepOutcome::EndOfProgram);
        }
        let start = self.pc;
        let opcode = self.decode_opcode();
        if self.program.len() - self.pc < opcode.operand_bytes() {
            return self.fault(start, VmError::TruncatedInstruction);
        }
        match opcode {
            Opcode::HLT => {
                self.status = StepOutcome::Halted;
                Ok(StepOutcome::Halted)
            },
            Opcode::IGL => {
                self.status = StepOutcome::IllegalOpcode;
                Ok(StepOutcome::IllegalOpcode)
            },
            Opcode::LOAD => self.execute_load(start),
            Opcode::ADD | Opcode::SUB | Opcode::MUL | Opcode::DIV => self.execute_arithmetic(
                opcode,
                start,
            ),
            Opcode::JMP | Opcode::JMPF | Opcode::JMPB | Opcode::JMPE | Opcode::JNEQ => {
                self.execute_jump(opcode, start)
            },
            Opcode::EQ | Opcode::NEQ | Opcode::GT | Opcode::LT | Opcode::GTE | Opcode::LTE => {
                self.execute_comparison(opcode, start)
            },
        }
    }

    /// Fetches the byte at the program counter.
    fn next_8_bits(&mut self) -> (result: u8)
        requires
            old(self).pc < old(self).program.len(),
        ensures
            result == old(self)@.byte(0),
            final(self)@ =~= (MachineState { pc: old(self)@.pc + 1, ..old(self)@ }),
    {
        let result = self.program[self.pc];
        self.pc += 1;
        result
    }

    /// Fetches the two bytes at the program counter as one number, high byte
    /// first.
    fn next_16_bits(&mut self) -> (result: u16)
        requires
            old(self).pc + 1 < old(self).program.len(),
        ensures
            result == old(self)@.byte(0) * 256 + old(self)@.byte(1),
            final(self)@ =~= (MachineState { pc: old(self)@.pc + 2, ..old(self)@ }),
    {
        let high = self.program[self.pc] as u16;
        let low = self.program[self.pc + 1] as u16;
        let result = (high << 8) | low;
        assert(result == high * 256 + low) by (bit_vector)
            requires
                result == (high << 8) | low,
                high < 256,
                low < 256,
        ;
        self.pc += 2;
        result
    }

    /// Fetches the byte at the program counter and decodes it.
    fn decode_opcode(&mut self) -> (opcode: Opcode)
        requires
            old(self).pc < old(self).program.len(),
        ensures
            opcode == old(self)@.opcode(),
            final(self)@ =~= (MachineState { pc: old(self)@.pc + 1, ..old(self)@ }),
    {
        let opcode = Opcode::from(self.program[self.pc]);
        self.pc += 1;
        opcode
    }

    /// The state in which the step began whose opcode, at `start`, the
    /// machine has just fetched.
    spec fn began(self, start: usize) -> MachineState {
        MachineState { pc: start as nat, ..self@ }
    }

    /// The machine has fetched `opcode` at `start` and changed nothing else,
    /// and all operand bytes of the instruction lie inside the program.
    spec fn has_fetched(self, opcode: Opcode, start: usize) -> bool {
        let begin = self.began(start);
        &&& self.pc == start + 1
        &&& begin.status == StepOutcome::Continue
        &&& begin.pc < begin.program.len()
        &&& begin.opcode() == opcode
        &&& begin.complete()
    }

    /// `LOAD`, after the opcode byte.
    fn execute_load(&mut self, start: usize) -> (result: Result<StepOutcome, VmError>)
        requires
            old(self).has_fetched(Opcode::LOAD, start),
        ensures
            result == old(self).began(start).step().result,
            final(self)@ =~= old(self).began(start).step().next,
    {
        let register = self.next_8_bits() as usize;
        let number = self.next_16_bits();
        if register >= REGISTER_COUNT {
            return self.fault(start, VmError::RegisterIndexOutOfRange);
        }
        self.registers[register] = number as i32;
        Ok(StepOutcome::Continue)
    }

    /// `ADD`, `SUB`, `MUL` and `DIV`, after the opcode byte.
    fn execute_arithmetic(&mut self, opcode: Opcode, start: usize) -> (result: Result<
        StepOutcome,
        VmError,
    >)
        requires
            old(self).has_fetched(opcode, start),
            opcode == Opcode::ADD || opcode == Opcode::SUB || opcode == Opcode::MUL || opcode
                == Opcode::DIV,
        ensures
            result == old(self).began(start).step().result,
            final(self)@ =~= old(self).began(start).step().next,
    {
        let source1 = self.next_8_bits() as usize;
        let source2 = self.next_8_bits() as usize;
        let target = self.next_8_bits() as usize;
        if source1 >= REGISTER_COUNT || source2 >= REGISTER_COUNT || target >= REGISTER_COUNT {
            return self.fault(start, VmError::RegisterIndexOutOfRange);
        }
        let register1 = self.registers[source1];
        let register2 = self.registers[source2];
        match opcode {
            Opcode::ADD => {
                self.registers[target] = register1.wrapping_add(register2);
            },
            Opcode::SUB => {
                self.registers[target] = register1.wrapping_sub(register2);
            },
            Opcode::MUL => {
                self.registers[target] = register1.wrapping_mul(register2);
            },
            _ => {
                if register2 == 0 {
                    return self.fault(start, VmError::DivisionByZero);
                }
                let (quotient, remainder) = Self::divide(register1, register2);
                self.registers[target] = quotient;
                self.remainder = remainder;
            },
        }
        Ok(StepOutcome::Continue)
    }

    /// The five jumps, after the opcode byte.
    fn execute_jump(&mut self, opcode: Opcode, start: usize) -> (result: Result<
        StepOutcome,
        VmError,
    >)
        requires
            old(self).has_fetched(opcode, start),
            opcode == Opcode::JMP || opcode == Opcode::JMPF || opcode == Opcode::JMPB || opcode
                == Opcode::JMPE || opcode == Opcode::JNEQ,
        ensures
            result == old(self).began(start).step().result,
            final(self)@ =~= old(self).began(start).step().next,
    {
        let register = self.next_8_bits() as usize;
        if register >= REGISTER_COUNT {
            return self.fault(start, VmError::RegisterIndexOutOfRange);
        }
        let value = self.registers[register] as i64;
        let destination = match opcode {
            Opcode::JMP => Self::jump_to(0, value),
            Opcode::JMPF => Self::jump_to(self.pc, value),
            Opcode::JMPB => Self::jump_to(self.pc, -value),
            Opcode::JMPE => if self.equal_flag {
                Self::jump_to(0, value)
            } else {
                Some(self.pc)
            },
            _ => if !self.equal_flag {
                Self::jump_to(0, value)
            } else {
                Some(self.pc)
            },
        };
        match destination {
            Some(pc) => {
                self.pc = pc;
                Ok(StepOutcome::Continue)
            },
            None => self.fault(start, VmError::ProgramCounterUnderflow),
        }
    }

    /// The six comparisons, after the opcode byte.
    fn execute_comparison(&mut self, opcode: Opcode, start: usize) -> (result: Result<
        StepOutcome,
        VmError,
    >)
        requires
            old(self).has_fetched(opcode, start),
            opcode == Opcode::EQ || opcode == Opcode::NEQ || opcode == Opcode::GT || opcode
                == Opcode::LT || opcode == Opcode::GTE || opcode == Opcode::LTE,
        ensures
            result == old(self).began(start).step().result,
            final(self)@ =~= old(self).began(start).step().next,
    {
        let register1 = self.next_8_bits() as usize;
        let register2 = self.next_8_bits() as usize;
        if register1 >= REGISTER_COUNT || register2 >= REGISTER_COUNT {
            return self.fault(start, VmError::RegisterIndexOutOfRange);
        }
        let value1 = self.registers[register1];
        let value2 = self.registers[register2];
        match opcode {
            Opcode::EQ => {
                self.equal_flag = value1 == value2;
                self.next_8_bits();
            },
            Opcode::NEQ => {
                self.equal_flag = value1 != value2;
                self.next_8_bits();
            },
            Opcode::GT => {
                self.equal_flag = value1 > value2;
            },
            Opcode::LT => {
                self.equal_flag = value1 < value2;
            },
            Opcode::GTE => {
                self.equal_flag = value1 >= value2;
            },
            _ => {
                self.equal_flag = value1 <= value2;
            },
        }
        Ok(StepOutcome::Continue)
    }

    /// Puts the program counter back to where the step began and reports
    /// `error`.
    fn fault(&mut self, start: usize, error: VmError) -> (result: Result<StepOutcome, VmError>)
        ensures
            result == Err::<StepOutcome, VmError>(error),
            final(self)@ =~= (MachineState { pc: start as nat, ..old(self)@ }),
    {
        self.pc = start;
        Err(error)
    }

    /// The quotient, rounded toward zero and wrapped to 32 bits, and the
    /// remainder as an unsigned pattern.
    fn divide(dividend: i32, divisor: i32) -> (result: (i32, u32))
        requires
            divisor != 0,
        ensures
            result.0 == wrap_i32(truncated_quotient(dividend as int, divisor as int)),
            result.1 == as_unsigned(truncated_remainder(dividend as int, divisor as int)),
    {
        proof {
            lemma_truncated_division_bounds(dividend as int, divisor as int);
            if divisor < 0 {
                lemma_negative_divisor(magnitude(dividend as int), divisor as int);
            }
        }
        if dividend == i32::MIN && divisor == -1 {
            assert(truncated_quotient(i32::MIN as int, -1) == 0x8000_0000) by {
                assert(0x8000_0000int / 1 == 0x8000_0000);
            }
            (i32::MIN, 0)
        } else {
            let quotient = dividend / divisor;
            let remainder = dividend % divisor;
            assert(remainder as u32 == (if remainder < 0 {
                remainder + 0x1_0000_0000
            } else {
                remainder as int
            })) by (bit_vector);
            (quotient, #[verifier::truncate] (remainder as u32))
        }
    }

    /// Where a jump by `offset` from `base` leads.
    fn jump_to(base: usize, offset: i64) -> (target: Option<usize>)
        requires
            -0x8000_0000 <= offset <= 0x8000_0000,
        ensures
            match target {
                Some(pc) => jump_target(base + offset) == Some(pc as nat),
                None => jump_target(base + offset).is_none(),
            },
    {
        if offset >= 0 {
            Some(base.saturating_add(offset as usize))
        } else {
            let back = (-offset) as u64;
            if back > base as u64 {
                None
            } else {
                Some(base - back as usize)
            }
        }
    }
}

} // verus!
