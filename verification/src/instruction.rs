//! The opcode set and the instruction encoding.
//!
//! An instruction is one opcode byte followed by zero to three operand bytes.
//! The encoding is variable-width: the machine consumes exactly the operand
//! bytes that the opcode asks for and fetches the next opcode right after them.
use vstd::prelude::*;
use vstd::std_specs::convert::FromSpecImpl;

verus! {

/// The operations of the machine. `IGL` stands for every byte that names no
/// operation.
#[derive(Debug, Clone, Copy, PartialEq, Eq, Structural)]
pub enum Opcode {
    LOAD,
    ADD,
    SUB,
    MUL,
    DIV,
    HLT,
    JMP,
    JMPB,
    JMPF,
    EQ,
    JMPE,
    JNEQ,
    NEQ,
    GT,
    LT,
    GTE,
    LTE,
    IGL,
}

/// An opcode as it stands in a program. Operands are not stored here: the
/// machine reads them from the program buffer while it executes.
#[derive(Debug, PartialEq, Eq, Structural)]
pub struct Instruction {
    pub opcode: Opcode,
}

impl Instruction {
    pub fn new(opcode: Opcode) -> (instruction: Instruction)
        ensures
            instruction.opcode == opcode,
    {
        Instruction { opcode }
    }
}

/// The operation that a byte names: bytes 0 to 16 name one operation each,
/// every other byte is illegal.
pub open spec fn decode(byte: u8) -> Opcode {
    match byte {
        0 => Opcode::LOAD,
        1 => Opcode::ADD,
        2 => Opcode::SUB,
        3 => Opcode::MUL,
        4 => Opcode::DIV,
        5 => Opcode::HLT,
        6 => Opcode::JMP,
        7 => Opcode::JMPB,
        8 => Opcode::JMPF,
        9 => Opcode::EQ,
        10 => Opcode::JMPE,
        11 => Opcode::JNEQ,
        12 => Opcode::NEQ,
        13 => Opcode::GT,
        14 => Opcode::LT,
        15 => Opcode::GTE,
        16 => Opcode::LTE,
        _ => Opcode::IGL,
    }
}

impl From<u8> for Opcode {
    fn from(v: u8) -> (opcode: Self) {
        match v {
            0 => Opcode::LOAD,
            1 => Opcode::ADD,
            2 => Opcode::SUB,
            3 => Opcode::MUL,
            4 => Opcode::DIV,
            5 => Opcode::HLT,
            6 => Opcode::JMP,
            7 => Opcode::JMPB,
            8 => Opcode::JMPF,
            9 => Opcode::EQ,
            10 => Opcode::JMPE,
            11 => Opcode::JNEQ,
            12 => Opcode::NEQ,
            13 => Opcode::GT,
            14 => Opcode::LT,
            15 => Opcode::GTE,
            16 => Opcode::LTE,
            _ => Opcode::IGL,
        }
    }
}

impl FromSpecImpl<u8> for Opcode {
    open spec fn obeys_from_spec() -> bool {
        true
    }

    open spec fn from_spec(v: u8) -> Self {
        decode(v)
    }
}

impl Opcode {
    /// How many operand bytes follow the opcode byte.
    pub open spec fn spec_operand_bytes(self) -> nat {
        match self {
            Opcode::HLT | Opcode::IGL => 0,
            Opcode::JMP | Opcode::JMPB | Opcode::JMPF | Opcode::JMPE | Opcode::JNEQ => 1,
            Opcode::GT | Opcode::LT | Opcode::GTE | Opcode::LTE => 2,
            Opcode::LOAD | Opcode::ADD | Opcode::SUB | Opcode::MUL | Opcode::DIV | Opcode::EQ
            | Opcode::NEQ => 3,
        }
    }

    /// How many of the operand bytes, counted from the first, are register
    /// indices. What follows them is an immediate (`LOAD`) or padding
    /// (`EQ`, `NEQ`).
    pub open spec fn spec_register_operands(self) -> nat {
        match self {
            Opcode::HLT | Opcode::IGL => 0,
            Opcode::LOAD | Opcode::JMP | Opcode::JMPB | Opcode::JMPF | Opcode::JMPE
            | Opcode::JNEQ => 1,
            Opcode::EQ | Opcode::NEQ | Opcode::GT | Opcode::LT | Opcode::GTE | Opcode::LTE => 2,
            Opcode::ADD | Opcode::SUB | Opcode::MUL | Opcode::DIV => 3,
        }
    }

    /// The executable form of [`Opcode::spec_operand_bytes`].
    pub fn operand_bytes(self) -> (n: usize)
        ensures
            n == self.spec_operand_bytes(),
    {
        match self {
            Opcode::HLT | Opcode::IGL => 0,
            Opcode::JMP | Opcode::JMPB | Opcode::JMPF | Opcode::JMPE | Opcode::JNEQ => 1,
            Opcode::GT | Opcode::LT | Opcode::GTE | Opcode::LTE => 2,
            Opcode::LOAD | Opcode::ADD | Opcode::SUB | Opcode::MUL | Opcode::DIV | Opcode::EQ
            | Opcode::NEQ => 3,
        }
    }
}

} // verus!
