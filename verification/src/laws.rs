//! What holds of every machine and every program, proved from the model.
use vstd::prelude::*;
use crate::arith::{
    as_unsigned, lemma_truncated_division_bounds, truncated_quotient, truncated_remainder,
    wrap_i32,
};
use crate::instruction::{decode, Opcode};
use crate::model::{MachineState, REGISTER_COUNT};
use crate::outcome::{StepOutcome, VmError};

verus! {

/// A byte is illegal exactly if it is above 16.
pub proof fn illegal_bytes(byte: u8)
    ensures
        decode(byte) == Opcode::IGL <==> byte > 16,
{
}

/// No two of the bytes 0 to 16 name the same operation.
pub proof fn legal_bytes_differ(first: u8, second: u8)
    requires
        first <= 16,
        second <= 16,
        decode(first) == decode(second),
    ensures
        first == second,
{
}

/// `LOAD r, n` sets register `r` to the unsigned value of `n`, changes no
/// other register, and the machine goes on four bytes further.
pub proof fn load_sets_register(m: MachineState, r: u8, n: u16)
    requires
        r < REGISTER_COUNT,
        m.executes(seq![0u8, r, (n / 256) as u8, (n % 256) as u8]),
    ensures
        m.step().result == Ok::<StepOutcome, VmError>(StepOutcome::Continue),
        m.step().next == (MachineState {
            registers: m.registers.update(r as int, n as i32),
            pc: m.pc + 4,
            ..m
        }),
        m.step().next.registers[r as int] == n,
        forall|i: int|
            0 <= i < REGISTER_COUNT && i != r ==> m.step().next.registers[i] == m.registers[i],
{
    assert(m.byte(0) == 0);
    assert(m.byte(1) == r);
    assert(m.byte(2) == n / 256);
    assert(m.byte(3) == n % 256);
    assert(m.immediate() == n);
}

/// The result of `ADD`, `SUB` or `MUL`, by the opcode byte, over the integers.
pub open spec fn exact_result(code: u8, a: int, b: int) -> int {
    if code == 1 {
        a + b
    } else if code == 2 {
        a - b
    } else {
        a * b
    }
}

/// `ADD`, `SUB` and `MUL` (opcode bytes 1, 2 and 3) on registers that hold `a`
/// and `b` put `a + b`, `a - b` and `a * b` into the destination register,
/// wrapped to 32 bits: the exact result wherever it fits. No other register
/// changes, so the sources keep their values unless one of them is the
/// destination.
pub proof fn arithmetic_writes_result(m: MachineState, code: u8, x: u8, y: u8, z: u8)
    requires
        1 <= code <= 3,
        x < REGISTER_COUNT,
        y < REGISTER_COUNT,
        z < REGISTER_COUNT,
        m.executes(seq![code, x, y, z]),
    ensures
        ({
            let a = m.registers[x as int];
            let b = m.registers[y as int];
            let exact = exact_result(code, a as int, b as int);
            let after = m.step().next;
            &&& m.step().result == Ok::<StepOutcome, VmError>(StepOutcome::Continue)
            &&& after == (MachineState {
                registers: m.registers.update(z as int, wrap_i32(exact)),
                pc: m.pc + 4,
                ..m
            })
            &&& after.registers[z as int] == wrap_i32(exact)
            &&& i32::MIN <= exact <= i32::MAX ==> after.registers[z as int] == exact
            &&& forall|i: int|
                0 <= i < REGISTER_COUNT && i != z ==> after.registers[i] == m.registers[i]
        }),
{
    assert(m.byte(0) == code);
    assert(m.byte(1) == x);
    assert(m.byte(2) == y);
    assert(m.byte(3) == z);
}

/// `DIV` by a divisor other than zero puts the quotient, rounded toward zero,
/// into the destination register and the remainder into the remainder field.
/// The remainder has the sign of the dividend; where it is negative, the
/// field holds it plus `2^32`. The one quotient that does not fit,
/// `i32::MIN / -1`, arrives as `i32::MIN`.
pub proof fn div_truncates(m: MachineState, x: u8, y: u8, z: u8)
    requires
        x < REGISTER_COUNT,
        y < REGISTER_COUNT,
        z < REGISTER_COUNT,
        m.executes(seq![4u8, x, y, z]),
        m.registers[y as int] != 0,
    ensures
        ({
            let a = m.registers[x as int] as int;
            let b = m.registers[y as int] as int;
            let after = m.step().next;
            &&& m.step().result == Ok::<StepOutcome, VmError>(StepOutcome::Continue)
            &&& after == (MachineState {
                registers: m.registers.update(z as int, wrap_i32(truncated_quotient(a, b))),
                remainder: as_unsigned(truncated_remainder(a, b)) as u32,
                pc: m.pc + 4,
                ..m
            })
            &&& !(a == i32::MIN && b == -1) ==> after.registers[z as int] == truncated_quotient(
                a,
                b,
            )
            &&& a == i32::MIN && b == -1 ==> after.registers[z as int] == i32::MIN
            &&& after.remainder == as_unsigned(truncated_remainder(a, b))
            &&& a >= 0 ==> after.remainder == truncated_remainder(a, b)
            &&& forall|i: int|
                0 <= i < REGISTER_COUNT && i != z ==> after.registers[i] == m.registers[i]
        }),
{
    assert(m.byte(0) == 4);
    assert(m.byte(1) == x);
    assert(m.byte(2) == y);
    assert(m.byte(3) == z);
    let a = m.registers[x as int] as int;
    let b = m.registers[y as int] as int;
    lemma_truncated_division_bounds(a, b);
    if a == i32::MIN && b == -1 {
        assert(0x8000_0000int / 1 == 0x8000_0000);
    }
}

/// `DIV` by zero is reported as `DivisionByZero`, and the machine stays as it
/// was.
pub proof fn div_by_zero_is_reported(m: MachineState, x: u8, y: u8, z: u8)
    requires
        x < REGISTER_COUNT,
        y < REGISTER_COUNT,
        z < REGISTER_COUNT,
        m.executes(seq![4u8, x, y, z]),
        m.registers[y as int] == 0,
    ensures
        m.step().result == Err::<StepOutcome, VmError>(VmError::DivisionByZero),
        m.step().next == m,
{
    assert(m.byte(0) == 4);
    assert(m.byte(1) == x);
    assert(m.byte(2) == y);
    assert(m.byte(3) == z);
}

/// The relation that a comparison opcode is named after.
pub open spec fn named_relation(opcode: Opcode, a: int, b: int) -> bool {
    match opcode {
        Opcode::EQ => a == b,
        Opcode::NEQ => a != b,
        Opcode::GT => a > b,
        Opcode::LT => a < b,
        Opcode::GTE => a >= b,
        Opcode::LTE => a <= b,
        _ => false,
    }
}

/// A comparison sets the flag to whether its relation holds between the two
/// registers, and changes nothing else but the program counter, which goes on
/// behind the instruction: four bytes for `EQ` and `NEQ`, which carry a
/// padding byte, three for the others.
pub proof fn comparison_sets_flag(m: MachineState, code: u8, x: u8, y: u8)
    requires
        code == 9 || 12 <= code <= 16,
        x < REGISTER_COUNT,
        y < REGISTER_COUNT,
        m.executes(seq![code, x, y]),
        code == 9 || code == 12 ==> m.pc + 4 <= m.program.len(),
    ensures
        m.step().result == Ok::<StepOutcome, VmError>(StepOutcome::Continue),
        m.step().next == (MachineState {
            equal_flag: named_relation(
                decode(code),
                m.registers[x as int] as int,
                m.registers[y as int] as int,
            ),
            pc: if code == 9 || code == 12 {
                m.pc + 4
            } else {
                m.pc + 3
            },
            ..m
        }),
{
    assert(m.byte(0) == code);
    assert(m.byte(1) == x);
    assert(m.byte(2) == y);
}

/// `JMPE` (opcode byte 10) jumps exactly if the flag is set, `JNEQ` (11)
/// exactly if it is not: the program counter then becomes the value of the
/// register, or an underflow is reported if that is negative. Otherwise the
/// program counter goes on behind the two bytes of the instruction. Nothing
/// else changes.
pub proof fn conditional_jump_follows_flag(m: MachineState, code: u8, x: u8)
    requires
        code == 10 || code == 11,
        x < REGISTER_COUNT,
        m.executes(seq![code, x]),
    ensures
        ({
            let taken = m.equal_flag == (code == 10);
            let target = m.registers[x as int];
            let t = m.step();
            &&& !taken ==> t.result == Ok::<StepOutcome, VmError>(StepOutcome::Continue) && t.next
                == (MachineState { pc: m.pc + 2, ..m })
            &&& taken && target >= 0 ==> t.result == Ok::<StepOutcome, VmError>(
                StepOutcome::Continue,
            ) && t.next == (MachineState { pc: target as nat, ..m })
            &&& taken && target < 0 ==> t.result == Err::<StepOutcome, VmError>(
                VmError::ProgramCounterUnderflow,
            ) && t.next == m
        }),
{
    assert(m.byte(0) == code);
    assert(m.byte(1) == x);
}

/// `JMP` (opcode byte 6) sets the program counter to the value of the
/// register, `JMPF` (8) moves it forward by that value and `JMPB` (7) back by
/// it, counted from behind the two bytes of the instruction. A target before
/// the start of the program is an underflow; one that the host cannot
/// represent becomes `usize::MAX`. Nothing else changes.
pub proof fn jump_moves_counter(m: MachineState, code: u8, x: u8)
    requires
        6 <= code <= 8,
        x < REGISTER_COUNT,
        m.executes(seq![code, x]),
    ensures
        ({
            let value = m.registers[x as int];
            let target = if code == 6 {
                value as int
            } else if code == 8 {
                m.pc + 2 + value
            } else {
                m.pc + 2 - value
            };
            let t = m.step();
            &&& target < 0 ==> t.result == Err::<StepOutcome, VmError>(
                VmError::ProgramCounterUnderflow,
            ) && t.next == m
            &&& 0 <= target ==> t.result == Ok::<StepOutcome, VmError>(StepOutcome::Continue)
            &&& 0 <= target <= usize::MAX ==> t.next == (MachineState { pc: target as nat, ..m })
            &&& target > usize::MAX ==> t.next == (MachineState { pc: usize::MAX as nat, ..m })
        }),
{
    assert(m.byte(0) == code);
    assert(m.byte(1) == x);
}

/// `HLT` (opcode byte 5) and every illegal byte stop the machine behind the
/// opcode byte, and nothing else changes.
pub proof fn halt_and_illegal_stop(m: MachineState)
    requires
        m.status == StepOutcome::Continue,
        m.pc < m.program.len(),
        m.byte(0) == 5 || m.byte(0) > 16,
    ensures
        ({
            let outcome = if m.byte(0) == 5 {
                StepOutcome::Halted
            } else {
                StepOutcome::IllegalOpcode
            };
            &&& m.step().result == Ok::<StepOutcome, VmError>(outcome)
            &&& m.step().next == (MachineState { pc: m.pc + 1, status: outcome, ..m })
        }),
{
}

/// A step that reports an error leaves the machine as it was, and a step
/// never reports an unknown opcode as an error.
pub proof fn errors_change_nothing(m: MachineState)
    ensures
        m.step().result is Err ==> m.step().next == m,
        m.step().result != Err::<StepOutcome, VmError>(VmError::UnknownOpcode),
{
}

/// Which error a step reports, if any: a truncated instruction first, then a
/// register index out of range, then what the operation itself finds.
pub proof fn errors_by_cause(m: MachineState)
    requires
        m.status == StepOutcome::Continue,
        m.pc < m.program.len(),
    ensures
        m.step().result == Err::<StepOutcome, VmError>(VmError::TruncatedInstruction)
            <==> !m.complete(),
        m.step().result == Err::<StepOutcome, VmError>(VmError::RegisterIndexOutOfRange) <==> (
        m.complete() && !m.registers_in_range()),
        m.step().result == Err::<StepOutcome, VmError>(VmError::DivisionByZero) <==> (m.complete()
            && m.registers_in_range() && m.opcode() == Opcode::DIV && m.reg(2) == 0),
        m.step().result == Err::<StepOutcome, VmError>(VmError::ProgramCounterUnderflow) <==> (
        m.complete() && m.registers_in_range() && ({
            ||| m.opcode() == Opcode::JMP && m.reg(1) < 0
            ||| m.opcode() == Opcode::JMPF && m.next_pc() + m.reg(1) < 0
            ||| m.opcode() == Opcode::JMPB && m.next_pc() - m.reg(1) < 0
            ||| m.opcode() == Opcode::JMPE && m.equal_flag && m.reg(1) < 0
            ||| m.opcode() == Opcode::JNEQ && !m.equal_flag && m.reg(1) < 0
        })),
{
}

/// Once a step has reported that the machine has stopped, every further step
/// reports the same and changes nothing.
pub proof fn stopped_machine_stays(m: MachineState)
    requires
        m.step().result is Ok,
        m.step().result != Ok::<StepOutcome, VmError>(StepOutcome::Continue),
    ensures
        m.step().next.stopped(),
        m.step().next.step() == m.step(),
{
}

/// A step on a stopped machine changes nothing and reports a terminal
/// outcome, and only on a stopped machine does it report one without having
/// executed an instruction in that very step.
pub proof fn stopped_means_no_change(m: MachineState)
    requires
        m.stopped(),
    ensures
        m.step().next == m,
        m.step().result is Ok,
        m.step().result != Ok::<StepOutcome, VmError>(StepOutcome::Continue),
{
}

/// A step keeps the 32 registers and never touches the program.
pub proof fn step_keeps_shape(m: MachineState)
    ensures
        m.step().next.program == m.program,
        m.wf() ==> m.step().next.wf(),
{
}

/// A run that has ended before its limit ends the same way under every larger
/// limit.
pub proof fn run_ignores_spare_steps(m: MachineState, limit: nat, more: nat)
    requires
        m.run(limit).result != Ok::<StepOutcome, VmError>(StepOutcome::Continue),
        limit <= more,
    ensures
        m.run(more) == m.run(limit),
    decreases limit,
{
    if limit > 0 {
        let t = m.step();
        if t.result == Ok::<StepOutcome, VmError>(StepOutcome::Continue) {
            run_ignores_spare_steps(t.next, (limit - 1) as nat, (more - 1) as nat);
        }
    }
}

/// After a run that has ended with a terminal outcome or an error, another
/// run reports the same and changes nothing.
pub proof fn run_again_changes_nothing(m: MachineState, limit: nat, again: nat)
    requires
        m.run(limit).result != Ok::<StepOutcome, VmError>(StepOutcome::Continue),
        again > 0,
    ensures
        m.run(limit).next.run(again) == m.run(limit),
    decreases limit,
{
    if limit > 0 {
        let t = m.step();
        if t.result == Ok::<StepOutcome, VmError>(StepOutcome::Continue) {
            run_again_changes_nothing(t.next, (limit - 1) as nat, again);
        } else {
            assert(t.next.step() == t);
        }
    }
}

} // verus!
