use vstd::prelude::*;
use vstd::wrapping::i64_specs;

verus! {

/// A value held on the stack or in the accumulator.
///
/// A floating-point value is carried as its IEEE-754 binary64 bit pattern;
/// the engine never computes with it and hands float arithmetic to its host.
#[derive(Debug, Clone, Copy, PartialEq, Eq, Structural)]
pub enum StoredValue {
    Integer(i64),
    Float(u64),
    Character(char),
    Undefined,
}

/// The seven binary arithmetic operators.
#[derive(Debug, Clone, Copy, PartialEq, Eq, Structural)]
pub enum ArithOp {
    Add,
    Sub,
    Mul,
    Div,
    Mod,
    Max,
    Min,
}

/// One decoded instruction of a program.
#[derive(Debug, Clone, Copy, PartialEq, Eq, Structural)]
pub enum Instruction {
    Add,
    Sub,
    Mul,
    Div,
    Mod,
    Max,
    Min,
    Push(StoredValue),
    Pop,
    PrintAccumulator,
    EOP,
}

/// The arithmetic operator an instruction stands for, if it is one.
pub open spec fn arith_of(i: Instruction) -> Option<ArithOp> {
    match i {
        Instruction::Add => Some(ArithOp::Add),
        Instruction::Sub => Some(ArithOp::Sub),
        Instruction::Mul => Some(ArithOp::Mul),
        Instruction::Div => Some(ArithOp::Div),
        Instruction::Mod => Some(ArithOp::Mod),
        Instruction::Max => Some(ArithOp::Max),
        Instruction::Min => Some(ArithOp::Min),
        _ => None,
    }
}

/// Whether the operator divides by its right-hand operand.
pub open spec fn divides(op: ArithOp) -> bool {
    op == ArithOp::Div || op == ArithOp::Mod
}

/// Whether a binary64 bit pattern is positive or negative zero.
pub open spec fn float_bits_zero(bits: u64) -> bool {
    bits & 0x7FFF_FFFF_FFFF_FFFFu64 == 0
}

/// Whether `v` is a zero divisor of its own variant.
pub open spec fn is_zero(v: StoredValue) -> bool {
    match v {
        StoredValue::Integer(n) => n == 0,
        StoredValue::Float(bits) => float_bits_zero(bits),
        _ => false,
    }
}

/// Quotient of `a / b` rounded toward zero.
pub open spec fn trunc_div(a: int, b: int) -> int {
    if a == 0 {
        0
    } else if a > 0 && b > 0 {
        a / b
    } else if a < 0 && b < 0 {
        (-a) / (-b)
    } else if a < 0 {
        -((-a) / b)
    } else {
        -(a / (-b))
    }
}

proof fn lemma_trunc_div_bounds(a: int, b: int)
    requires
        b != 0,
    ensures
        -abs(a) <= trunc_div(a, b) <= abs(a),
{
    if a > 0 && b > 0 {
        assert(a / b <= a) by (nonlinear_arith) requires a > 0, b > 0;
        assert(a / b >= 0) by (nonlinear_arith) requires a > 0, b > 0;
    } else if a < 0 && b < 0 {
        assert((-a) / (-b) <= -a) by (nonlinear_arith) requires -a > 0, -b > 0;
        assert((-a) / (-b) >= 0) by (nonlinear_arith) requires -a > 0, -b > 0;
    } else if a < 0 {
        assert((-a) / b <= -a) by (nonlinear_arith) requires -a > 0, b > 0;
        assert((-a) / b >= 0) by (nonlinear_arith) requires -a > 0, b > 0;
    } else if a > 0 {
        assert(a / (-b) <= a) by (nonlinear_arith) requires a > 0, -b > 0;
        assert(a / (-b) >= 0) by (nonlinear_arith) requires a > 0, -b > 0;
    }
}

pub open spec fn abs(a: int) -> int {
    if a < 0 { -a } else { a }
}


/// Remainder of `a / b` when the quotient is rounded toward zero; it takes the sign of `a`.
pub open spec fn trunc_rem(a: int, b: int) -> int {
    if a == 0 {
        0
    } else if a > 0 && b > 0 {
        a % b
    } else if a < 0 && b < 0 {
        -((-a) % (-b))
    } else if a < 0 {
        -((-a) % b)
    } else {
        a % (-b)
    }
}

/// Two's-complement division: rounds toward zero, and `MIN / -1` wraps to `MIN`.
pub open spec fn wrapping_div(a: i64, b: i64) -> i64 {
    if a == i64::MIN && b == -1 {
        i64::MIN
    } else {
        trunc_div(a as int, b as int) as i64
    }
}

/// Two's-complement remainder: sign of `a`, and `MIN % -1` is zero.
pub open spec fn wrapping_rem(a: i64, b: i64) -> i64 {
    if a == i64::MIN && b == -1 {
        0
    } else {
        trunc_rem(a as int, b as int) as i64
    }
}

/// `op(a, b)` on two integers, wrapping on overflow as two's complement does.
pub open spec fn int_apply(op: ArithOp, a: i64, b: i64) -> i64 {
    match op {
        ArithOp::Add => i64_specs::wrapping_add(a, b),
        ArithOp::Sub => i64_specs::wrapping_sub(a, b),
        ArithOp::Mul => i64_specs::wrapping_mul(a, b),
        ArithOp::Div => wrapping_div(a, b),
        ArithOp::Mod => wrapping_rem(a, b),
        ArithOp::Max => if a >= b { a } else { b },
        ArithOp::Min => if a <= b { a } else { b },
    }
}

fn quotient(a: i64, b: i64) -> (r: i64)
    requires
        b != 0,
    ensures
        r == wrapping_div(a, b),
{
    if a == i64::MIN && b == -1 {
        i64::MIN
    } else {
        proof {
            lemma_trunc_div_bounds(a as int, b as int);
        }
        match a.checked_div(b) {
            Some(q) => q,
            None => {
                proof {
                    if a < 0 && b < 0 {
                        let x: int = -(a as int);
                        let d: int = -(b as int);
                        assert((x / d) * 2 <= x) by (nonlinear_arith)
                            requires
                                x > 0,
                                d >= 2,
                        ;
                    }
                }
                i64::MIN
            },
        }
    }
}

fn remainder(a: i64, b: i64) -> (r: i64)
    requires
        b != 0,
    ensures
        r == wrapping_rem(a, b),
{
    if a == i64::MIN && b == -1 {
        0
    } else {
        match a.checked_rem(b) {
            Some(m) => m,
            None => {
                proof {
                    let x: int = abs(a as int);
                    let d: int = abs(b as int);
                    assert(0 <= x % d < d) by (nonlinear_arith)
                        requires
                            d > 0,
                    ;
                }
                0
            },
        }
    }
}

/// Applies `op` to two integers; the divisor of `Div` and `Mod` is nonzero.
pub fn int_arith(op: ArithOp, a: i64, b: i64) -> (r: i64)
    requires
        divides(op) ==> b != 0,
    ensures
        r == int_apply(op, a, b),
{
    match op {
        ArithOp::Add => a.wrapping_add(b),
        ArithOp::Sub => a.wrapping_sub(b),
        ArithOp::Mul => a.wrapping_mul(b),
        ArithOp::Div => quotient(a, b),
        ArithOp::Mod => remainder(a, b),
        ArithOp::Max => if a >= b { a } else { b },
        ArithOp::Min => if a <= b { a } else { b },
    }
}

/// Whether `v` is a zero divisor of its own variant.
pub fn value_is_zero(v: &StoredValue) -> (r: bool)
    ensures
        r == is_zero(*v),
{
    match v {
        StoredValue::Integer(n) => *n == 0,
        StoredValue::Float(bits) => *bits & 0x7FFF_FFFF_FFFF_FFFFu64 == 0,
        _ => false,
    }
}

impl ArithOp {
    /// Whether the operator divides by its right-hand operand.
    pub fn is_division(&self) -> (r: bool)
        ensures
            r == divides(*self),
    {
        match self {
            ArithOp::Div | ArithOp::Mod => true,
            _ => false,
        }
    }
}

impl Instruction {
    /// The arithmetic operator this instruction stands for, if it is one.
    pub fn arith_op(&self) -> (r: Option<ArithOp>)
        ensures
            r == arith_of(*self),
    {
        match self {
            Instruction::Add => Some(ArithOp::Add),
            Instruction::Sub => Some(ArithOp::Sub),
            Instruction::Mul => Some(ArithOp::Mul),
            Instruction::Div => Some(ArithOp::Div),
            Instruction::Mod => Some(ArithOp::Mod),
            Instruction::Max => Some(ArithOp::Max),
            Instruction::Min => Some(ArithOp::Min),
            _ => None,
        }
    }
}

} // verus!
