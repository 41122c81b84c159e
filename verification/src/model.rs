//! The machine as mathematics: its state, and one step as a function from
//! state to state.
//!
//! # Conventions
//!
//! * **Encoding.** Instructions have no fixed width. After the opcode byte the
//!   machine consumes the operand bytes of that opcode
//!   ([`Opcode::spec_operand_bytes`]) and nothing more.
//! * **Errors.** A step that reports an error leaves the state as it was. The
//!   instruction is checked as a whole before anything is changed: first that
//!   all its operand bytes are there, then that each register operand is below
//!   32, then what the operation itself asks for.
//! * **Arithmetic.** Registers hold 32-bit two's-complement integers. `ADD`,
//!   `SUB` and `MUL` wrap around. `DIV` truncates toward zero, and the
//!   remainder has the sign of the dividend; the one quotient that does not
//!   fit, `i32::MIN / -1`, wraps around to `i32::MIN`. The remainder field is
//!   unsigned: a negative remainder is kept as its 32-bit two's-complement
//!   pattern.
//! * **Jumps.** A jump reads its register as a signed number. The target is
//!   computed over the integers; a negative target is an underflow. A target
//!   above `usize::MAX` is replaced by `usize::MAX`, which lies past the end of
//!   every program.
//! * **Stopping.** `HLT` and an illegal opcode mark the state as stopped; every
//!   later step reports the same outcome and changes nothing.
use vstd::prelude::*;
use crate::arith::{as_unsigned, truncated_quotient, truncated_remainder, wrap_i32};
use crate::instruction::{decode, Opcode};
use crate::outcome::{StepOutcome, VmError};

verus! {

/// The number of registers.
pub const REGISTER_COUNT: usize = 32;

/// The state of a machine.
#[verifier::ext_equal]
pub struct MachineState {
    /// The register file.
    pub registers: Seq<i32>,
    /// The index in `program` of the next byte to fetch.
    pub pc: nat,
    /// The bytecode.
    pub program: Seq<u8>,
    /// The remainder of the most recent `DIV`.
    pub remainder: u32,
    /// The result of the most recent comparison.
    pub equal_flag: bool,
    /// `Continue` while the machine runs; `Halted` or `IllegalOpcode` once such
    /// an instruction has stopped it.
    pub status: StepOutcome,
}

/// The result of a step, and the state after it.
#[verifier::ext_equal]
pub struct Transition {
    pub result: Result<StepOutcome, VmError>,
    pub next: MachineState,
}

/// Where a jump to `target` leaves the program counter: nowhere if the target
/// is negative, else at the target, or at `usize::MAX` if the target is above
/// it.
pub open spec fn jump_target(target: int) -> Option<nat> {
    if target < 0 {
        None
    } else if target > usize::MAX {
        Some(usize::MAX as nat)
    } else {
        Some(target as nat)
    }
}

impl MachineState {
    /// A machine before its first step: all registers zero, no program.
    pub open spec fn fresh() -> MachineState {
        MachineState {
            registers: Seq::new(REGISTER_COUNT as nat, |i: int| 0i32),
            pc: 0,
            program: Seq::empty(),
            remainder: 0,
            equal_flag: false,
            status: StepOutcome::Continue,
        }
    }

    /// The state has its 32 registers.
    pub open spec fn wf(self) -> bool {
        self.registers.len() == REGISTER_COUNT
    }

    /// The machine has stopped: on `HLT`, on an illegal opcode, or because the
    /// program counter has left the program.
    pub open spec fn stopped(self) -> bool {
        self.status != StepOutcome::Continue || self.pc >= self.program.len()
    }

    /// The machine is running, and the bytes at the program counter are
    /// `bytes`.
    pub open spec fn executes(self, bytes: Seq<u8>) -> bool {
        &&& self.wf()
        &&& self.status == StepOutcome::Continue
        &&& self.pc + bytes.len() <= self.program.len()
        &&& forall|k: int| 0 <= k < bytes.len() ==> self.byte(k) == bytes[k]
    }

    /// The byte `k` places after the program counter: the opcode for `k == 0`,
    /// the operands for `k` from 1 to 3.
    pub open spec fn byte(self, k: int) -> u8 {
        self.program[self.pc + k]
    }

    /// The opcode at the program counter.
    pub open spec fn opcode(self) -> Opcode {
        decode(self.byte(0))
    }

    /// The value of the register that operand `k` names.
    pub open spec fn reg(self, k: int) -> i32 {
        self.registers[self.byte(k) as int]
    }

    /// The program counter right after the instruction at hand.
    pub open spec fn next_pc(self) -> nat {
        self.pc + 1 + self.opcode().spec_operand_bytes()
    }

    /// All operand bytes of the instruction at hand lie inside the program.
    pub open spec fn complete(self) -> bool {
        self.next_pc() <= self.program.len()
    }

    /// Every register operand of the instruction at hand names a register.
    pub open spec fn registers_in_range(self) -> bool {
        let n = self.opcode().spec_register_operands();
        &&& n >= 1 ==> self.byte(1) < REGISTER_COUNT
        &&& n >= 2 ==> self.byte(2) < REGISTER_COUNT
        &&& n >= 3 ==> self.byte(3) < REGISTER_COUNT
    }

    /// The 16-bit immediate of a `LOAD`: operand 2 is its high byte, operand 3
    /// its low byte.
    pub open spec fn immediate(self) -> u16 {
        (self.byte(2) * 256 + self.byte(3)) as u16
    }

    /// Nothing happens, and `result` is reported.
    pub open spec fn stay(self, result: Result<StepOutcome, VmError>) -> Transition {
        Transition { result, next: self }
    }

    /// The machine consumes the opcode byte and stops with `outcome`.
    pub open spec fn stop(self, outcome: StepOutcome) -> Transition {
        Transition {
            result: Ok(outcome),
            next: MachineState { pc: self.pc + 1, status: outcome, ..self },
        }
    }

    /// The instruction at hand writes `value` to the register that operand `k`
    /// names, and the machine goes on behind the instruction.
    pub open spec fn write(self, k: int, value: i32) -> Transition {
        Transition {
            result: Ok(StepOutcome::Continue),
            next: MachineState {
                registers: self.registers.update(self.byte(k) as int, value),
                pc: self.next_pc(),
                ..self
            },
        }
    }

    /// The instruction at hand sets the flag, and the machine goes on behind
    /// the instruction.
    pub open spec fn compare(self, flag: bool) -> Transition {
        Transition {
            result: Ok(StepOutcome::Continue),
            next: MachineState { equal_flag: flag, pc: self.next_pc(), ..self },
        }
    }

    /// The machine goes on behind the instruction at hand, nothing else
    /// changes.
    pub open spec fn skip(self) -> Transition {
        Transition {
            result: Ok(StepOutcome::Continue),
            next: MachineState { pc: self.next_pc(), ..self },
        }
    }

    /// The machine goes on at `target`, or reports an underflow.
    pub open spec fn jump(self, target: int) -> Transition {
        match jump_target(target) {
            Some(pc) => Transition {
                result: Ok(StepOutcome::Continue),
                next: MachineState { pc, ..self },
            },
            None => self.stay(Err(VmError::ProgramCounterUnderflow)),
        }
    }

    /// `DIV`: quotient to the register of operand 3, remainder to the
    /// remainder field.
    pub open spec fn divide(self) -> Transition {
        let a = self.reg(1) as int;
        let b = self.reg(2) as int;
        if b == 0 {
            self.stay(Err(VmError::DivisionByZero))
        } else {
            Transition {
                result: Ok(StepOutcome::Continue),
                next: MachineState {
                    registers: self.registers.update(
                        self.byte(3) as int,
                        wrap_i32(truncated_quotient(a, b)),
                    ),
                    remainder: as_unsigned(truncated_remainder(a, b)) as u32,
                    pc: self.next_pc(),
                    ..self
                },
            }
        }
    }

    /// What the instruction at hand does, once it is known to be complete and
    /// to name registers only.
    pub open spec fn execute(self) -> Transition {
        match self.opcode() {
            Opcode::HLT => self.stop(StepOutcome::Halted),
            Opcode::IGL => self.stop(StepOutcome::IllegalOpcode),
            Opcode::LOAD => self.write(1, self.immediate() as i32),
            Opcode::ADD => self.write(3, wrap_i32(self.reg(1) + self.reg(2))),
            Opcode::SUB => self.write(3, wrap_i32(self.reg(1) - self.reg(2))),
            Opcode::MUL => self.write(3, wrap_i32(self.reg(1) * self.reg(2))),
            Opcode::DIV => self.divide(),
            Opcode::JMP => self.jump(self.reg(1) as int),
            Opcode::JMPF => self.jump(self.next_pc() + self.reg(1)),
            Opcode::JMPB => self.jump(self.next_pc() - self.reg(1)),
            Opcode::EQ => self.compare(self.reg(1) == self.reg(2)),
            Opcode::NEQ => self.compare(self.reg(1) != self.reg(2)),
            Opcode::GT => self.compare(self.reg(1) > self.reg(2)),
            Opcode::LT => self.compare(self.reg(1) < self.reg(2)),
            Opcode::GTE => self.compare(self.reg(1) >= self.reg(2)),
            Opcode::LTE => self.compare(self.reg(1) <= self.reg(2)),
            Opcode::JMPE => if self.equal_flag {
                self.jump(self.reg(1) as int)
            } else {
                self.skip()
            },
            Opcode::JNEQ => if !self.equal_flag {
                self.jump(self.reg(1) as int)
            } else {
                self.skip()
            },
        }
    }

    /// One step of the machine.
    pub open spec fn step(self) -> Transition {
        if self.status != StepOutcome::Continue {
            self.stay(Ok(self.status))
        } else if self.pc >= self.program.len() {
            self.stay(Ok(StepOutcome::EndOfProgram))
        } else if !self.complete() {
            self.stay(Err(VmError::TruncatedInstruction))
        } else if !self.registers_in_range() {
            self.stay(Err(VmError::RegisterIndexOutOfRange))
        } else {
            self.execute()
        }
    }

    /// Up to `limit` steps: the machine steps until a step reports anything
    /// but `Continue`, and that report is the result. If `limit` steps have
    /// all reported `Continue`, so does the run.
    pub open spec fn run(self, limit: nat) -> Transition
        decreases limit,
    {
        if limit == 0 {
            self.stay(Ok(StepOutcome::Continue))
        } else {
            let t = self.step();
            if t.result == Ok::<StepOutcome, VmError>(StepOutcome::Continue) {
                t.next.run((limit - 1) as nat)
            } else {
                t
            }
        }
    }
}

} // verus!
