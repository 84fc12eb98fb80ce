use bytecode_cpu::cpu::{Cpu, Exit, Failure, Status};
use bytecode_cpu::value::{int_arith, ArithOp, Instruction, StoredValue};

fn push_int(n: i64) -> Instruction {
    Instruction::Push(StoredValue::Integer(n))
}

fn push_float(x: f64) -> Instruction {
    Instruction::Push(StoredValue::Float(x.to_bits()))
}

fn run_once(program: &[Instruction]) -> (Cpu, Exit) {
    let mut cpu = Cpu::new(program).unwrap();
    let exit = cpu.run();
    (cpu, exit)
}

#[test]
fn basic_program_test() {
    let program = &[
        Instruction::Push(StoredValue::Integer(10)),
        Instruction::Push(StoredValue::Integer(1)),
        Instruction::Add,
        Instruction::PrintAccumulator,
        Instruction::EOP,
    ];
    let mut cpu = Cpu::new(program).unwrap();
    assert_eq!(cpu.run(), Exit::Print(StoredValue::Integer(11)));
    assert_eq!(cpu.run(), Exit::Halted);
}

#[test]
fn integer_add_leaves_sum_and_empty_stack() {
    let (cpu, exit) = run_once(&[push_int(3), push_int(4), Instruction::Add, Instruction::EOP]);
    assert_eq!(exit, Exit::Halted);
    assert_eq!(cpu.accumulator(), StoredValue::Integer(7));
    assert_eq!(cpu.stack_depth(), 0);
}

#[test]
fn integer_add_of_negatives() {
    let (cpu, exit) = run_once(&[push_int(-20), push_int(5), Instruction::Add, Instruction::EOP]);
    assert_eq!(exit, Exit::Halted);
    assert_eq!(cpu.accumulator(), StoredValue::Integer(-15));
}

#[test]
fn integer_add_wraps_on_overflow() {
    let (cpu, exit) = run_once(&[push_int(i64::MAX), push_int(1), Instruction::Add, Instruction::EOP]);
    assert_eq!(exit, Exit::Halted);
    assert_eq!(cpu.accumulator(), StoredValue::Integer(i64::MIN));
}

#[test]
fn add_keeps_values_below_the_operands() {
    let (cpu, exit) = run_once(&[push_int(100), push_int(3), push_int(4), Instruction::Add, Instruction::EOP]);
    assert_eq!(exit, Exit::Halted);
    assert_eq!(cpu.accumulator(), StoredValue::Integer(7));
    assert_eq!(cpu.stack_depth(), 1);
}

#[test]
fn float_add_is_handed_to_the_host() {
    let mut cpu = Cpu::new(&[push_float(1.5), push_float(2.25), Instruction::Add, Instruction::EOP]).unwrap();
    let exit = cpu.run();
    assert_eq!(exit, Exit::Float(ArithOp::Add, 2.25f64.to_bits(), 1.5f64.to_bits()));
    assert_eq!(cpu.stack_depth(), 0);
    cpu.store_float((2.25f64 + 1.5f64).to_bits());
    assert_eq!(cpu.run(), Exit::Halted);
    match cpu.accumulator() {
        StoredValue::Float(bits) => assert!((f64::from_bits(bits) - 3.75).abs() < 1e-12),
        other => panic!("unexpected accumulator {:?}", other),
    }
}

#[test]
fn float_sub_puts_the_top_value_first() {
    let (_, exit) = run_once(&[push_float(1.0), push_float(8.0), Instruction::Sub, Instruction::EOP]);
    assert_eq!(exit, Exit::Float(ArithOp::Sub, 8.0f64.to_bits(), 1.0f64.to_bits()));
}

#[test]
fn pop_on_empty_stack_underflows() {
    let (cpu, exit) = run_once(&[Instruction::Pop]);
    assert_eq!(exit, Exit::Failed(Failure::StackUnderflow));
    assert_eq!(cpu.status(), Status::Failed(Failure::StackUnderflow));
}

#[test]
fn pop_discards_the_top_value() {
    let (cpu, exit) = run_once(&[push_int(1), push_int(2), Instruction::Pop, Instruction::EOP]);
    assert_eq!(exit, Exit::Halted);
    assert_eq!(cpu.stack_depth(), 1);
}

#[test]
fn arithmetic_with_one_value_underflows() {
    let (_, exit) = run_once(&[push_int(1), Instruction::Mul, Instruction::EOP]);
    assert_eq!(exit, Exit::Failed(Failure::StackUnderflow));
}

#[test]
fn arithmetic_on_empty_stack_underflows() {
    let (_, exit) = run_once(&[Instruction::Min, Instruction::EOP]);
    assert_eq!(exit, Exit::Failed(Failure::StackUnderflow));
}

#[test]
fn integer_and_float_mismatch() {
    let ops = [
        Instruction::Add,
        Instruction::Sub,
        Instruction::Mul,
        Instruction::Div,
        Instruction::Mod,
        Instruction::Max,
        Instruction::Min,
    ];
    for op in ops {
        let (_, exit) = run_once(&[push_int(1), push_float(2.0), op, Instruction::EOP]);
        assert_eq!(exit, Exit::Failed(Failure::TypeMismatch));
        let (_, exit) = run_once(&[push_float(2.0), push_int(1), op, Instruction::EOP]);
        assert_eq!(exit, Exit::Failed(Failure::TypeMismatch));
    }
}

#[test]
fn mismatch_leaves_accumulator_alone() {
    let (cpu, exit) = run_once(&[
        push_int(2),
        push_int(3),
        Instruction::Add,
        push_int(1),
        push_float(2.0),
        Instruction::Add,
    ]);
    assert_eq!(exit, Exit::Failed(Failure::TypeMismatch));
    assert_eq!(cpu.accumulator(), StoredValue::Integer(5));
}

#[test]
fn character_and_undefined_operands_mismatch() {
    let (_, exit) = run_once(&[
        Instruction::Push(StoredValue::Character('a')),
        Instruction::Push(StoredValue::Character('b')),
        Instruction::Add,
        Instruction::EOP,
    ]);
    assert_eq!(exit, Exit::Failed(Failure::TypeMismatch));
    let (_, exit) = run_once(&[
        Instruction::Push(StoredValue::Undefined),
        push_int(1),
        Instruction::Max,
        Instruction::EOP,
    ]);
    assert_eq!(exit, Exit::Failed(Failure::TypeMismatch));
}

#[test]
fn integer_division_by_zero() {
    // The value on top is the left-hand operand; the one below divides it.
    let (_, exit) = run_once(&[push_int(0), push_int(5), Instruction::Div, Instruction::EOP]);
    assert_eq!(exit, Exit::Failed(Failure::DivisionByZero));
    let (_, exit) = run_once(&[push_int(0), push_int(i64::MIN), Instruction::Mod, Instruction::EOP]);
    assert_eq!(exit, Exit::Failed(Failure::DivisionByZero));
}

#[test]
fn float_division_by_zero() {
    let (_, exit) = run_once(&[push_float(0.0), push_float(5.0), Instruction::Div, Instruction::EOP]);
    assert_eq!(exit, Exit::Failed(Failure::DivisionByZero));
    let (_, exit) = run_once(&[push_float(-0.0), push_float(5.0), Instruction::Mod, Instruction::EOP]);
    assert_eq!(exit, Exit::Failed(Failure::DivisionByZero));
}

#[test]
fn zero_on_top_is_the_dividend() {
    let (cpu, exit) = run_once(&[push_int(5), push_int(0), Instruction::Div]);
    assert_eq!(cpu.accumulator(), StoredValue::Integer(0));
    assert_eq!(exit, Exit::Failed(Failure::ProgramExhausted));
}

#[test]
fn end_of_program_alone_succeeds() {
    let (cpu, exit) = run_once(&[Instruction::EOP]);
    assert_eq!(exit, Exit::Halted);
    assert_eq!(cpu.accumulator(), StoredValue::Undefined);
    assert_eq!(cpu.stack_depth(), 0);
    assert_eq!(cpu.status(), Status::Halted);
}

#[test]
fn missing_end_of_program_is_exhaustion() {
    let (_, exit) = run_once(&[push_int(1)]);
    assert_eq!(exit, Exit::Failed(Failure::ProgramExhausted));
}

#[test]
fn empty_program_is_exhaustion() {
    let (_, exit) = run_once(&[]);
    assert_eq!(exit, Exit::Failed(Failure::ProgramExhausted));
}

#[test]
fn ended_run_stays_ended() {
    let mut cpu = Cpu::new(&[Instruction::EOP, push_int(1), Instruction::Pop]).unwrap();
    assert_eq!(cpu.run(), Exit::Halted);
    assert_eq!(cpu.run(), Exit::Halted);
    let mut cpu = Cpu::new(&[Instruction::Pop, Instruction::EOP]).unwrap();
    assert_eq!(cpu.run(), Exit::Failed(Failure::StackUnderflow));
    assert_eq!(cpu.run(), Exit::Failed(Failure::StackUnderflow));
}

#[test]
fn step_runs_one_instruction() {
    let mut cpu = Cpu::new(&[push_int(1), Instruction::PrintAccumulator, Instruction::EOP]).unwrap();
    assert_eq!(cpu.step(), None);
    assert_eq!(cpu.stack_depth(), 1);
    assert_eq!(cpu.step(), Some(Exit::Print(StoredValue::Undefined)));
    assert_eq!(cpu.step(), Some(Exit::Halted));
}

#[test]
fn stack_hint_does_not_change_behaviour() {
    let mut cpu = Cpu::with_stack_hint(&[push_int(2), push_int(9), Instruction::Sub, Instruction::EOP], 0);
    assert_eq!(cpu.run(), Exit::Halted);
    assert_eq!(cpu.accumulator(), StoredValue::Integer(7));
}

fn binary(op: Instruction, top: i64, below: i64) -> StoredValue {
    let (cpu, exit) = run_once(&[push_int(below), push_int(top), op, Instruction::EOP]);
    assert_eq!(exit, Exit::Halted);
    cpu.accumulator()
}

#[test]
fn integer_operators_take_top_value_as_left_operand() {
    assert_eq!(binary(Instruction::Sub, 10, 3), StoredValue::Integer(7));
    assert_eq!(binary(Instruction::Mul, 6, 7), StoredValue::Integer(42));
    assert_eq!(binary(Instruction::Div, 7, -2), StoredValue::Integer(-3));
    assert_eq!(binary(Instruction::Div, -7, 2), StoredValue::Integer(-3));
    assert_eq!(binary(Instruction::Mod, -7, 2), StoredValue::Integer(-1));
    assert_eq!(binary(Instruction::Mod, 7, -2), StoredValue::Integer(1));
    assert_eq!(binary(Instruction::Max, -4, 9), StoredValue::Integer(9));
    assert_eq!(binary(Instruction::Min, -4, 9), StoredValue::Integer(-4));
}

#[test]
fn integer_operators_wrap_at_the_edges() {
    assert_eq!(binary(Instruction::Div, i64::MIN, -1), StoredValue::Integer(i64::MIN));
    assert_eq!(binary(Instruction::Mod, i64::MIN, -1), StoredValue::Integer(0));
    assert_eq!(binary(Instruction::Sub, i64::MIN, 1), StoredValue::Integer(i64::MAX));
    assert_eq!(binary(Instruction::Mul, i64::MAX, 2), StoredValue::Integer(-2));
}

#[test]
fn int_arith_formulas() {
    assert_eq!(int_arith(ArithOp::Add, 2, 3), 5);
    assert_eq!(int_arith(ArithOp::Sub, 2, 3), -1);
    assert_eq!(int_arith(ArithOp::Mul, -4, 3), -12);
    assert_eq!(int_arith(ArithOp::Div, 9, 4), 2);
    assert_eq!(int_arith(ArithOp::Mod, 9, 4), 1);
    assert_eq!(int_arith(ArithOp::Max, 9, 4), 9);
    assert_eq!(int_arith(ArithOp::Min, 9, 4), 4);
}
