use vstd::prelude::*;
use vstd::wrapping::i64_specs;
use crate::cpu::{initial, remaining, run_until_exit, step, CpuState, Exit, Failure, Status};
use crate::value::{arith_of, is_zero, ArithOp, Instruction, StoredValue};

verus! {

/// `s` is running and its next instruction is `i`.
pub open spec fn about_to_run(s: CpuState, i: Instruction) -> bool {
    &&& s.status == Status::Running
    &&& 0 <= s.pc < s.program.len()
    &&& s.program[s.pc] == i
}

/// `Push(Integer(x)); Push(Integer(y)); Add` runs on without stopping, leaves
/// the stack as it found it, and sets the accumulator to the two's-complement
/// sum of `x` and `y`, which is `x + y` whenever that fits in an `i64`.
pub proof fn lemma_push_push_add_integers(s: CpuState, x: i64, y: i64)
    requires
        s.status == Status::Running,
        0 <= s.pc,
        s.pc + 3 <= s.program.len(),
        s.program[s.pc] == Instruction::Push(StoredValue::Integer(x)),
        s.program[s.pc + 1] == Instruction::Push(StoredValue::Integer(y)),
        s.program[s.pc + 2] == Instruction::Add,
    ensures
        ({
            let (t1, e1) = step(s);
            let (t2, e2) = step(t1);
            let (t3, e3) = step(t2);
            &&& e1 is None && e2 is None && e3 is None
            &&& t3.status == Status::Running
            &&& t3.pc == s.pc + 3
            &&& t3.stack == s.stack
            &&& t3.accumulator == StoredValue::Integer(i64_specs::wrapping_add(x, y))
            &&& i64::MIN <= x + y <= i64::MAX ==> t3.accumulator == StoredValue::Integer(
                (x + y) as i64,
            )
        }),
{
    let (t1, e1) = step(s);
    let (t2, e2) = step(t1);
    let (t3, e3) = step(t2);
    assert(t2.stack =~= s.stack.push(StoredValue::Integer(x)).push(StoredValue::Integer(y)));
    assert(t3.stack =~= s.stack);
}

/// `Push(Float(x)); Push(Float(y)); Add` leaves the stack as it found it and
/// hands the host the float addition with `y`, the value on top, as its
/// left operand; the host's result becomes the accumulator (`store_float`).
pub proof fn lemma_push_push_add_floats(s: CpuState, x: u64, y: u64)
    requires
        s.status == Status::Running,
        0 <= s.pc,
        s.pc + 3 <= s.program.len(),
        s.program[s.pc] == Instruction::Push(StoredValue::Float(x)),
        s.program[s.pc + 1] == Instruction::Push(StoredValue::Float(y)),
        s.program[s.pc + 2] == Instruction::Add,
    ensures
        ({
            let (t1, e1) = step(s);
            let (t2, e2) = step(t1);
            let (t3, e3) = step(t2);
            &&& e1 is None && e2 is None
            &&& e3 == Some(Exit::Float(ArithOp::Add, y, x))
            &&& t3.status == Status::Running
            &&& t3.pc == s.pc + 3
            &&& t3.stack == s.stack
        }),
{
    let (t1, e1) = step(s);
    let (t2, e2) = step(t1);
    let (t3, e3) = step(t2);
    assert(t2.stack =~= s.stack.push(StoredValue::Float(x)).push(StoredValue::Float(y)));
    assert(t3.stack =~= s.stack);
}

/// `Pop` on an empty stack fails with `StackUnderflow`.
pub proof fn lemma_pop_empty_underflows(s: CpuState)
    requires
        about_to_run(s, Instruction::Pop),
        s.stack.len() == 0,
    ensures
        step(s).1 == Some(Exit::Failed(Failure::StackUnderflow)),
{
}

/// An arithmetic instruction with fewer than two values on the stack fails
/// with `StackUnderflow`.
pub proof fn lemma_arith_short_stack_underflows(s: CpuState, i: Instruction)
    requires
        about_to_run(s, i),
        arith_of(i) is Some,
        s.stack.len() < 2,
    ensures
        step(s).1 == Some(Exit::Failed(Failure::StackUnderflow)),
{
}

/// An arithmetic instruction whose two operands are one `Integer` and one
/// `Float` fails with `TypeMismatch`.
pub proof fn lemma_mixed_operands_mismatch(s: CpuState, i: Instruction)
    requires
        about_to_run(s, i),
        arith_of(i) is Some,
        s.stack.len() >= 2,
        ({
            let a = s.stack[s.stack.len() - 1];
            let b = s.stack[s.stack.len() - 2];
            (a is Integer && b is Float) || (a is Float && b is Integer)
        }),
    ensures
        step(s).1 == Some(Exit::Failed(Failure::TypeMismatch)),
{
}

/// `Div` and `Mod` whose right-hand operand (the second value popped) is a
/// zero fail with `DivisionByZero`, whatever the left-hand operand of the
/// same variant is.
pub proof fn lemma_zero_divisor(s: CpuState, i: Instruction)
    requires
        about_to_run(s, i),
        i == Instruction::Div || i == Instruction::Mod,
        s.stack.len() >= 2,
        is_zero(s.stack[s.stack.len() - 2]),
        ({
            let a = s.stack[s.stack.len() - 1];
            let b = s.stack[s.stack.len() - 2];
            (a is Integer && b is Integer) || (a is Float && b is Float)
        }),
    ensures
        step(s).1 == Some(Exit::Failed(Failure::DivisionByZero)),
{
}

/// Reaching `EOP` ends the run successfully, with the stack and the
/// accumulator as they were.
pub proof fn lemma_eop_halts(s: CpuState)
    requires
        about_to_run(s, Instruction::EOP),
    ensures
        ({
            let (t, e) = run_until_exit(s);
            &&& e == Exit::Halted
            &&& t.status == Status::Halted
            &&& t.stack == s.stack
            &&& t.accumulator == s.accumulator
        }),
{
}

/// A program with no `EOP` never ends successfully: every exit of a run that
/// has not already ended is a failure, a print, or float work for the host.
pub proof fn lemma_no_eop_never_halts(s: CpuState)
    requires
        s.status != Status::Halted,
        forall|k: int| 0 <= k < s.program.len() ==> s.program[k] != Instruction::EOP,
    ensures
        run_until_exit(s).1 != Exit::Halted,
        run_until_exit(s).0.status != Status::Halted,
    decreases remaining(s),
{
    let (t, e) = step(s);
    if e is None {
        lemma_no_eop_never_halts(t);
    }
}

/// A run that has ended stays ended: stepping it changes nothing and gives
/// the same ending again.
pub proof fn lemma_ended_stays_ended(s: CpuState)
    requires
        s.status != Status::Running,
    ensures
        step(s).0 == s,
        s.status == Status::Halted ==> step(s).1 == Some(Exit::Halted),
        s.status matches Status::Failed(f) ==> step(s).1 == Some(Exit::Failed(f)),
{
}

/// The program counter stays within `0..=program.len()`, and the program
/// itself never changes.
pub proof fn lemma_step_keeps_pc_in_bounds(s: CpuState)
    requires
        0 <= s.pc <= s.program.len(),
    ensures
        0 <= step(s).0.pc <= step(s).0.program.len(),
        step(s).0.program == s.program,
{
}

/// A fresh engine starts with an empty stack and an `Undefined` accumulator.
pub proof fn lemma_initial_state(program: Seq<Instruction>)
    ensures
        initial(program).stack.len() == 0,
        initial(program).accumulator == StoredValue::Undefined,
        initial(program).pc == 0,
        initial(program).status == Status::Running,
{
}

} // verus!
