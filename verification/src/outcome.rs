//! What one step of the machine reports.
use vstd::prelude::*;

verus! {

/// How the machine goes on after a step. Everything but `Continue` is
/// terminal: the machine has stopped.
#[derive(Debug, Clone, Copy, PartialEq, Eq, Structural)]
pub enum StepOutcome {
    /// An instruction was executed and the machine can take another step.
    Continue,
    /// A `HLT` instruction was executed.
    Halted,
    /// The byte at the program counter names no operation.
    IllegalOpcode,
    /// The program counter lies at or past the end of the program.
    EndOfProgram,
}

/// What can be wrong with a program.
///
/// A step reports the last four as errors and leaves the machine as it was.
/// An unknown opcode is no error of a step: it stops the machine with
/// [`StepOutcome::IllegalOpcode`], so that a program can end on a sentinel
/// byte. [`StepOutcome::as_error`] gives it its place among the defects.
#[derive(Debug, Clone, Copy, PartialEq, Eq, Structural)]
pub enum VmError {
    /// The opcode byte names no operation.
    UnknownOpcode,
    /// An operand that names a register is 32 or more.
    RegisterIndexOutOfRange,
    /// `DIV` with a divisor of zero.
    DivisionByZero,
    /// A jump to a position before the start of the program.
    ProgramCounterUnderflow,
    /// The program ends before the last operand byte of the instruction.
    TruncatedInstruction,
}

impl StepOutcome {
    /// Whether the machine has stopped.
    pub open spec fn spec_is_terminal(self) -> bool {
        self != StepOutcome::Continue
    }

    /// The defect in the program that this outcome stands for, if any.
    pub open spec fn spec_as_error(self) -> Option<VmError> {
        if self == StepOutcome::IllegalOpcode {
            Some(VmError::UnknownOpcode)
        } else {
            None
        }
    }

    /// The executable form of [`StepOutcome::spec_is_terminal`].
    pub fn is_terminal(self) -> (terminal: bool)
        ensures
            terminal == self.spec_is_terminal(),
    {
        match self {
            StepOutcome::Continue => false,
            _ => true,
        }
    }

    /// The executable form of [`StepOutcome::spec_as_error`]: tells a
    /// malformed program (`IllegalOpcode`) from a deliberate or natural end.
    pub fn as_error(self) -> (error: Option<VmError>)
        ensures
            error == self.spec_as_error(),
    {
        match self {
            StepOutcome::IllegalOpcode => Some(VmError::UnknownOpcode),
            _ => None,
        }
    }
}

} // verus!
