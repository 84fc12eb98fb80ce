use vstd::prelude::*;
use crate::value::{
    arith_of, divides, int_apply, int_arith, is_zero, value_is_zero, ArithOp, Instruction,
    StoredValue,
};

verus! {

/// Why a run stopped without reaching `EOP`.
#[derive(Debug, Clone, Copy, PartialEq, Eq, Structural)]
pub enum Failure {
    /// The program counter ran past the last instruction.
    ProgramExhausted,
    /// An instruction needed more values than the stack held.
    StackUnderflow,
    /// An arithmetic instruction got operands of variants it cannot combine.
    TypeMismatch,
    /// `Div` or `Mod` with a zero right-hand operand.
    DivisionByZero,
    /// An instruction that has no behaviour yet.
    UnimplementedInstruction,
}

/// Whether the engine may still execute instructions.
#[derive(Debug, Clone, Copy, PartialEq, Eq, Structural)]
pub enum Status {
    Running,
    Halted,
    Failed(Failure),
}

/// What the engine hands back to its host when it stops running on its own.
#[derive(Debug, Clone, Copy, PartialEq, Eq, Structural)]
pub enum Exit {
    /// `EOP` was reached: the run ended successfully.
    Halted,
    /// The run ended with a failure.
    Failed(Failure),
    /// `PrintAccumulator`: the host shows this value, then runs on.
    Print(StoredValue),
    /// Float arithmetic `op(a, b)` on two binary64 bit patterns: the host
    /// computes it, stores it with `store_float`, then runs on.
    Float(ArithOp, u64, u64),
}

/// The abstract state of an engine.
pub struct CpuState {
    pub program: Seq<Instruction>,
    pub stack: Seq<StoredValue>,
    pub pc: int,
    pub accumulator: StoredValue,
    pub status: Status,
}

/// The state in which a run of `program` starts.
pub open spec fn initial(program: Seq<Instruction>) -> CpuState {
    CpuState {
        program,
        stack: Seq::empty(),
        pc: 0,
        accumulator: StoredValue::Undefined,
        status: Status::Running,
    }
}

/// `s` stopped by `f`, with stack and accumulator untouched.
pub open spec fn fail(s: CpuState, f: Failure) -> (CpuState, Option<Exit>) {
    (CpuState { status: Status::Failed(f), ..s }, Some(Exit::Failed(f)))
}

/// Executes an arithmetic operator on `s`, whose program counter already
/// points past the instruction. The first value popped is `a`, the second `b`.
pub open spec fn arith_step(s: CpuState, op: ArithOp) -> (CpuState, Option<Exit>) {
    let n = s.stack.len();
    if n < 2 {
        fail(s, Failure::StackUnderflow)
    } else {
        let a = s.stack[n - 1];
        let b = s.stack[n - 2];
        let rest = s.stack.subrange(0, n - 2);
        match (a, b) {
            (StoredValue::Integer(x), StoredValue::Integer(y)) => if divides(op) && y == 0 {
                fail(s, Failure::DivisionByZero)
            } else {
                (
                    CpuState {
                        stack: rest,
                        accumulator: StoredValue::Integer(int_apply(op, x, y)),
                        ..s
                    },
                    None,
                )
            },
            (StoredValue::Float(x), StoredValue::Float(y)) => if divides(op) && is_zero(b) {
                fail(s, Failure::DivisionByZero)
            } else {
                (CpuState { stack: rest, ..s }, Some(Exit::Float(op, x, y)))
            },
            _ => fail(s, Failure::TypeMismatch),
        }
    }
}

/// One fetch-decode-execute step. `None` means that the engine keeps running
/// without anything for its host to do.
pub open spec fn step(s: CpuState) -> (CpuState, Option<Exit>) {
    match s.status {
        Status::Halted => (s, Some(Exit::Halted)),
        Status::Failed(f) => (s, Some(Exit::Failed(f))),
        Status::Running => if s.pc < 0 || s.pc >= s.program.len() {
            fail(s, Failure::ProgramExhausted)
        } else {
            let instr = s.program[s.pc];
            let t = CpuState { pc: s.pc + 1, ..s };
            match instr {
                Instruction::Push(v) => (CpuState { stack: t.stack.push(v), ..t }, None),
                Instruction::Pop => if t.stack.len() == 0 {
                    fail(t, Failure::StackUnderflow)
                } else {
                    (CpuState { stack: t.stack.drop_last(), ..t }, None)
                },
                Instruction::PrintAccumulator => (t, Some(Exit::Print(t.accumulator))),
                Instruction::EOP => (CpuState { status: Status::Halted, ..t }, Some(Exit::Halted)),
                _ => arith_step(t, arith_of(instr).unwrap()),
            }
        },
    }
}

/// How many steps `s` has left at most before it must stop.
pub open spec fn remaining(s: CpuState) -> int {
    if s.pc < s.program.len() { s.program.len() - s.pc } else { 0 }
}

/// Steps `s` until it hands something to its host.
pub open spec fn run_until_exit(s: CpuState) -> (CpuState, Exit)
    decreases remaining(s),
{
    let (t, e) = step(s);
    match e {
        Some(x) => (t, x),
        None => run_until_exit(t),
    }
}

/// Stack capacity reserved up front by `Cpu::new`.
pub const STACK_HINT: usize = 40960;

/// A stack-based processor that executes one program.
#[derive(Debug)]
pub struct Cpu {
    /// The program, read-only once the engine is built.
    program: Vec<Instruction>,
    /// Operand stack; its top is the back of the vector.
    stack: Vec<StoredValue>,
    /// Index of the next instruction to fetch.
    pc: usize,
    /// The result of the last arithmetic instruction.
    accumulator: StoredValue,
    status: Status,
}

impl View for Cpu {
    type V = CpuState;

    closed spec fn view(&self) -> CpuState {
        CpuState {
            program: self.program@,
            stack: self.stack@,
            pc: self.pc as int,
            accumulator: self.accumulator,
            status: self.status,
        }
    }
}

impl Cpu {
    /// Builds an engine for `program_data` with the default stack reservation.
    pub fn new(program_data: &[Instruction]) -> (r: Option<Cpu>)
        ensures
            r matches Some(cpu) && cpu@ == initial(program_data@),
    {
        Some(Cpu::with_stack_hint(program_data, STACK_HINT))
    }

    /// Builds an engine for `program_data` whose stack has room for `hint`
    /// values before it first grows.
    pub fn with_stack_hint(program_data: &[Instruction], hint: usize) -> (r: Cpu)
        ensures
            r@ == initial(program_data@),
    {
        let mut program: Vec<Instruction> = Vec::new();
        let mut i: usize = 0;
        while i < program_data.len()
            invariant
                i <= program_data@.len(),
                program@ == program_data@.subrange(0, i as int),
            decreases program_data@.len() - i,
        {
            program.push(program_data[i]);
            i = i + 1;
            proof {
                assert(program@ =~= program_data@.subrange(0, i as int));
            }
        }
        proof {
            assert(program@ =~= program_data@);
        }
        Cpu {
            program,
            stack: Vec::with_capacity(hint),
            pc: 0,
            accumulator: StoredValue::Undefined,
            status: Status::Running,
        }
    }

    /// Fetches the instruction at the program counter and advances the counter.
    fn fetch_instr(&mut self) -> (r: Option<Instruction>)
        ensures
            old(self)@.pc < old(self)@.program.len() ==> r == Some(old(self)@.program[old(self)@.pc])
                && final(self)@ == (CpuState { pc: old(self)@.pc + 1, ..old(self)@ }),
            old(self)@.pc >= old(self)@.program.len() ==> r is None && final(self)@ == old(self)@,
    {
        if self.pc < self.program.len() {
            let i = self.program[self.pc];
            self.pc = self.pc + 1;
            Some(i)
        } else {
            None
        }
    }

    /// Pops the top of the stack into `a` and the value under it into `b`;
    /// with fewer than two values the stack is left as it was.
    fn pop_stack_pair(&mut self) -> (r: Option<(StoredValue, StoredValue)>)
        ensures
            ({
                let s = old(self)@;
                let n = s.stack.len();
                if n < 2 {
                    r is None && final(self)@ == s
                } else {
                    r == Some((s.stack[n - 1], s.stack[n - 2]))
                        && final(self)@ == (CpuState { stack: s.stack.subrange(0, n - 2), ..s })
                }
            }),
    {
        if self.stack.len() < 2 {
            return None;
        }
        let a = self.stack.pop().unwrap();
        let b = self.stack.pop().unwrap();
        proof {
            assert(self.stack@ =~= old(self).stack@.subrange(0, old(self).stack@.len() - 2));
        }
        Some((a, b))
    }

    /// Stops the run with `f`.
    fn fail(&mut self, f: Failure) -> (r: Option<Exit>)
        ensures
            (final(self)@, r) == fail(old(self)@, f),
    {
        self.status = Status::Failed(f);
        Some(Exit::Failed(f))
    }

    /// Executes `op` on the two values on top of the stack.
    fn arith(&mut self, op: ArithOp) -> (r: Option<Exit>)
        ensures
            (final(self)@, r) == arith_step(old(self)@, op),
    {
        let n = self.stack.len();
        if n < 2 {
            return self.fail(Failure::StackUnderflow);
        }
        let a = self.stack[n - 1];
        let b = self.stack[n - 2];
        match (a, b) {
            (StoredValue::Integer(x), StoredValue::Integer(y)) => {
                if op.is_division() && y == 0 {
                    self.fail(Failure::DivisionByZero)
                } else {
                    let _ = self.pop_stack_pair();
                    self.accumulator = StoredValue::Integer(int_arith(op, x, y));
                    None
                }
            },
            (StoredValue::Float(x), StoredValue::Float(y)) => {
                if op.is_division() && value_is_zero(&b) {
                    self.fail(Failure::DivisionByZero)
                } else {
                    let _ = self.pop_stack_pair();
                    Some(Exit::Float(op, x, y))
                }
            },
            _ => self.fail(Failure::TypeMismatch),
        }
    }

    /// Executes one instruction. `None` means that the engine keeps running
    /// with nothing for its host to do; otherwise the exit says what happened.
    pub fn step(&mut self) -> (r: Option<Exit>)
        ensures
            (final(self)@, r) == step(old(self)@),
    {
        match self.status {
            Status::Halted => return Some(Exit::Halted),
            Status::Failed(f) => return Some(Exit::Failed(f)),
            Status::Running => {},
        }
        let instr = match self.fetch_instr() {
            Some(i) => i,
            None => return self.fail(Failure::ProgramExhausted),
        };
        match instr {
            Instruction::Push(v) => {
                self.stack.push(v);
                None
            },
            Instruction::Pop => match self.stack.pop() {
                Some(_) => None,
                None => self.fail(Failure::StackUnderflow),
            },
            Instruction::PrintAccumulator => Some(Exit::Print(self.accumulator)),
            Instruction::EOP => {
                self.status = Status::Halted;
                Some(Exit::Halted)
            },
            _ => match instr.arith_op() {
                Some(op) => self.arith(op),
                None => self.fail(Failure::UnimplementedInstruction),
            },
        }
    }

    /// Runs until the program ends, fails, prints, or needs float arithmetic
    /// from the host. Once ended, it returns the same ending again.
    pub fn run(&mut self) -> (r: Exit)
        ensures
            (final(self)@, r) == run_until_exit(old(self)@),
    {
        loop
            invariant
                run_until_exit(self@) == run_until_exit(old(self)@),
            decreases remaining(self@),
        {
            match self.step() {
                Some(e) => return e,
                None => {},
            }
        }
    }

    /// Completes a float instruction: the accumulator takes the bit pattern
    /// that the host computed.
    pub fn store_float(&mut self, bits: u64)
        ensures
            final(self)@ == (CpuState { accumulator: StoredValue::Float(bits), ..old(self)@ }),
    {
        self.accumulator = StoredValue::Float(bits);
    }

    /// The current accumulator.
    pub fn accumulator(&self) -> (r: StoredValue)
        ensures
            r == self@.accumulator,
    {
        self.accumulator
    }

    /// How many values the stack holds.
    pub fn stack_depth(&self) -> (r: usize)
        ensures
            r == self@.stack.len(),
    {
        self.stack.len()
    }

    /// Whether the engine is running, halted, or failed.
    pub fn status(&self) -> (r: Status)
        ensures
            r == self@.status,
    {
        self.status
    }
}

} // verus!
