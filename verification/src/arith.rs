//! Arithmetic on values: what is worked out on integers, and what is asked for on doubles.

use crate::float::{
    abs, is_whole, negate, spec_is_whole, spec_negate, spec_truncate, spec_widen, truncate, widen,
};
use crate::value::{Value, VmValue};
use vstd::arithmetic::div_mod::{lemma_fundamental_div_mod, lemma_fundamental_div_mod_converse};
use vstd::prelude::*;
use vstd::string::*;

verus! {

/// The arithmetic operations on two numbers.
#[derive(Debug, Clone, Copy, PartialEq, Eq, Structural)]
pub enum ArithOp {
    Add,
    Sub,
    Mul,
    Div,
    FloorDiv,
    Pow,
    Rem,
}

/// The operations on the bits of two 32-bit integers.
#[derive(Debug, Clone, Copy, PartialEq, Eq, Structural)]
pub enum BitOp {
    Xor,
    And,
    Or,
    ShiftLeft,
    ShiftRight,
    ShiftRightArithmetic,
}

/// An operation on doubles that the arithmetic asks its caller to carry out. The operands
/// are bit patterns of doubles, and so is the answer.
#[derive(Debug, Clone, Copy, PartialEq, Eq, Structural)]
pub enum FloatRequest {
    /// `a + b`
    Add(u64, u64),
    /// `a - b`
    Sub(u64, u64),
    /// `a * b`
    Mul(u64, u64),
    /// `a / b`
    Div(u64, u64),
    /// The floor of `a / b`
    FloorDiv(u64, u64),
    /// The remainder of `a / b`, with the sign of `a`
    Rem(u64, u64),
    /// `a` raised to an integer power
    PowInt(u64, i32),
    /// `a` raised to a power that is no whole number
    PowReal(u64, u64),
}

/// What becomes of the answer to a [`FloatRequest`].
#[derive(Debug, Clone, Copy, PartialEq, Eq, Structural)]
pub enum Narrow {
    /// The answer is converted to an integer whatever it is.
    Always,
    /// The answer is converted to an integer where it has no fractional part.
    IfWhole,
    /// The answer stays a float.
    Never,
}

/// What an arithmetic operation on two values comes to.
pub enum Arith {
    /// The result is known.
    Done(VmValue),
    /// The result is the answer to a request, narrowed as said.
    Ask(FloatRequest, Narrow),
    /// The operands are not of the types that the operation takes.
    Mismatch,
}

/// The mathematical content of an [`Arith`].
pub enum ArithView {
    Done(Value),
    Ask(FloatRequest, Narrow),
    Mismatch,
}

impl View for Arith {
    type V = ArithView;

    open spec fn view(&self) -> ArithView {
        match self {
            Arith::Done(v) => ArithView::Done(v@),
            Arith::Ask(request, narrow) => ArithView::Ask(*request, *narrow),
            Arith::Mismatch => ArithView::Mismatch,
        }
    }
}

/// The nearest 32-bit integer: the integer itself where it fits, else the bound it lies beyond.
pub open spec fn clamp(i: int) -> i32 {
    if i < i32::MIN {
        i32::MIN
    } else if i > i32::MAX {
        i32::MAX
    } else {
        i as i32
    }
}

/// The greatest integer that is not above the quotient `a / b`, for a divisor other than zero.
pub open spec fn floor_div(a: int, b: int) -> int {
    if b > 0 {
        a / b
    } else {
        (-a) / (-b)
    }
}

/// Whether the quotient `a / b` is a whole number.
pub open spec fn divides(b: int, a: int) -> bool {
    b != 0 && abs(a) % abs(b) == 0
}

/// The remainder of the division that rounds toward zero: it has the sign of the dividend.
pub open spec fn remainder(a: int, b: int) -> int {
    if a < 0 {
        -((abs(a) % abs(b)) as int)
    } else {
        (abs(a) % abs(b)) as int
    }
}

/// The request for an operation on two doubles. A power is asked for as an integer power
/// where the exponent is a whole number, converted with saturation.
pub open spec fn spec_float_request(op: ArithOp, a: u64, b: u64) -> FloatRequest {
    match op {
        ArithOp::Add => FloatRequest::Add(a, b),
        ArithOp::Sub => FloatRequest::Sub(a, b),
        ArithOp::Mul => FloatRequest::Mul(a, b),
        ArithOp::Div => FloatRequest::Div(a, b),
        ArithOp::FloorDiv => FloatRequest::FloorDiv(a, b),
        ArithOp::Rem => FloatRequest::Rem(a, b),
        ArithOp::Pow => if spec_is_whole(b) {
            FloatRequest::PowInt(a, spec_truncate(b))
        } else {
            FloatRequest::PowReal(a, b)
        },
    }
}

/// An operation on two 32-bit integers. Sums, differences, products and floored quotients
/// are integers, taken to the nearest bound where they do not fit. A floored quotient by
/// zero is the bound on the dividend's side, and 0 for 0 / 0. A quotient is an integer where
/// the division is exact, and a remainder where the divisor is not zero. All else is asked
/// for on the widened operands, to be narrowed where the answer is whole.
pub open spec fn spec_int_arith(op: ArithOp, a: i32, b: i32) -> ArithView {
    match op {
        ArithOp::Add => ArithView::Done(Value::Int(clamp(a + b))),
        ArithOp::Sub => ArithView::Done(Value::Int(clamp(a - b))),
        ArithOp::Mul => ArithView::Done(Value::Int(clamp(a * b))),
        ArithOp::FloorDiv => ArithView::Done(
            Value::Int(
                if b != 0 {
                    clamp(floor_div(a as int, b as int))
                } else if a > 0 {
                    i32::MAX
                } else if a < 0 {
                    i32::MIN
                } else {
                    0
                },
            ),
        ),
        ArithOp::Div if divides(b as int, a as int) => ArithView::Done(
            Value::Int(clamp(floor_div(a as int, b as int))),
        ),
        ArithOp::Rem if b != 0 => ArithView::Done(Value::Int(remainder(a as int, b as int) as i32)),
        _ => ArithView::Ask(
            spec_float_request(op, spec_widen(a), spec_widen(b)),
            Narrow::IfWhole,
        ),
    }
}

/// How the answer to an operation is narrowed where an operand was a float: a floored
/// quotient is always an integer, everything else stays a float.
pub open spec fn float_narrow(op: ArithOp) -> Narrow {
    if op == ArithOp::FloorDiv {
        Narrow::Always
    } else {
        Narrow::Never
    }
}

/// An arithmetic operation on two values. Two integers are worked on as integers; an integer
/// beside a float is widened; two strings can be added, which joins them; every other pair
/// is a mismatch.
pub open spec fn spec_arith(op: ArithOp, a: Value, b: Value) -> ArithView {
    match (a, b) {
        (Value::Int(x), Value::Int(y)) => spec_int_arith(op, x, y),
        (Value::Int(x), Value::Float(y)) => ArithView::Ask(
            spec_float_request(op, spec_widen(x), y),
            float_narrow(op),
        ),
        (Value::Float(x), Value::Int(y)) => ArithView::Ask(
            spec_float_request(op, x, spec_widen(y)),
            float_narrow(op),
        ),
        (Value::Float(x), Value::Float(y)) => ArithView::Ask(
            spec_float_request(op, x, y),
            float_narrow(op),
        ),
        (Value::Str(x), Value::Str(y)) if op == ArithOp::Add => ArithView::Done(Value::Str(x + y)),
        _ => ArithView::Mismatch,
    }
}

/// The value that an answer becomes under a way of narrowing.
pub open spec fn spec_narrowed(narrow: Narrow, answer: u64) -> Value {
    match narrow {
        Narrow::Always => Value::Int(spec_truncate(answer)),
        Narrow::IfWhole => if spec_is_whole(answer) {
            Value::Int(spec_truncate(answer))
        } else {
            Value::Float(answer)
        },
        Narrow::Never => Value::Float(answer),
    }
}

/// The amount of a shift: the low five bits of the right operand.
pub open spec fn shift_amount(b: i32) -> u32 {
    (b as u32) & 31
}

/// An operation on the bits of two 32-bit integers in two's complement. A shift goes by
/// the low five bits of its right operand; the plain right shift fills with zeros, the
/// arithmetic one with the sign.
pub open spec fn spec_bit_op(op: BitOp, a: i32, b: i32) -> i32 {
    match op {
        BitOp::Xor => a ^ b,
        BitOp::And => a & b,
        BitOp::Or => a | b,
        BitOp::ShiftLeft => ((a as u32) << shift_amount(b)) as i32,
        BitOp::ShiftRight => ((a as u32) >> shift_amount(b)) as i32,
        BitOp::ShiftRightArithmetic => a >> shift_amount(b),
    }
}

/// Negation of a number: of an integer to the nearest bound, of a float by its sign.
pub open spec fn spec_negated(v: Value) -> Option<Value> {
    match v {
        Value::Int(i) => Some(Value::Int(clamp(-i))),
        Value::Float(bits) => Some(Value::Float(spec_negate(bits))),
        _ => None,
    }
}

/// Takes a 64-bit integer to the nearest 32-bit integer.
fn clamp_i64(i: i64) -> (r: i32)
    ensures
        r == clamp(i as int),
{
    if i < -2147483648 {
        i32::MIN
    } else if i > 2147483647 {
        i32::MAX
    } else {
        i as i32
    }
}

/// The size of a 32-bit integer.
fn magnitude(i: i32) -> (r: u64)
    ensures
        r == abs(i as int),
        r <= 0x8000_0000,
{
    if i < 0 {
        (-(i as i64)) as u64
    } else {
        i as u64
    }
}

/// The floored quotient of two integers, the divisor not zero, taken to the nearest bound.
pub fn floor_divide(a: i32, b: i32) -> (r: i32)
    requires
        b != 0,
    ensures
        r == clamp(floor_div(a as int, b as int)),
{
    let am = magnitude(a);
    let bm = magnitude(b);
    let q = am / bm;
    let rest = am % bm;
    proof {
        lemma_fundamental_div_mod(am as int, bm as int);
        assert(q <= am) by (nonlinear_arith)
            requires
                am == bm * q + rest,
                bm >= 1,
                rest >= 0,
                q >= 0,
        ;
    }
    if (a < 0) == (b < 0) {
        clamp_i64(q as i64)
    } else if rest == 0 {
        proof {
            assert(-(am as int) == (-(q as int)) * (bm as int) + 0) by (nonlinear_arith)
                requires
                    am == bm * q + rest,
                    rest == 0,
            ;
            lemma_fundamental_div_mod_converse(-(am as int), bm as int, -(q as int), 0);
        }
        clamp_i64(-(q as i64))
    } else {
        proof {
            assert(-(am as int) == (-(q as int) - 1) * (bm as int) + (bm - rest)) by (nonlinear_arith)
                requires
                    am == bm * q + rest,
            ;
            lemma_fundamental_div_mod_converse(
                -(am as int),
                bm as int,
                -(q as int) - 1,
                bm - rest,
            );
        }
        clamp_i64(-(q as i64) - 1)
    }
}

/// An arithmetic operation on two 32-bit integers.
pub fn int_arith(op: ArithOp, a: i32, b: i32) -> (r: Arith)
    ensures
        r@ == spec_int_arith(op, a, b),
{
    match op {
        ArithOp::Add => Arith::Done(VmValue::Int(clamp_i64(a as i64 + b as i64))),
        ArithOp::Sub => Arith::Done(VmValue::Int(clamp_i64(a as i64 - b as i64))),
        ArithOp::Mul => {
            assert(-0x4000_0000_0000_0000 <= (a as int) * (b as int) <= 0x4000_0000_0000_0000)
                by (nonlinear_arith)
                requires
                    -0x8000_0000 <= a <= 0x7FFF_FFFF,
                    -0x8000_0000 <= b <= 0x7FFF_FFFF,
            ;
            Arith::Done(VmValue::Int(clamp_i64((a as i64) * (b as i64))))
        },
        ArithOp::FloorDiv => {
            if b != 0 {
                Arith::Done(VmValue::Int(floor_divide(a, b)))
            } else if a > 0 {
                Arith::Done(VmValue::Int(i32::MAX))
            } else if a < 0 {
                Arith::Done(VmValue::Int(i32::MIN))
            } else {
                Arith::Done(VmValue::Int(0))
            }
        },
        ArithOp::Div => {
            if b != 0 && magnitude(a) % magnitude(b) == 0 {
                Arith::Done(VmValue::Int(floor_divide(a, b)))
            } else {
                Arith::Ask(float_request(op, widen(a), widen(b)), Narrow::IfWhole)
            }
        },
        ArithOp::Rem => {
            if b != 0 {
                let rest = magnitude(a) % magnitude(b);
                if a < 0 {
                    Arith::Done(VmValue::Int((-(rest as i64)) as i32))
                } else {
                    Arith::Done(VmValue::Int(rest as i32))
                }
            } else {
                Arith::Ask(float_request(op, widen(a), widen(b)), Narrow::IfWhole)
            }
        },
        ArithOp::Pow => Arith::Ask(float_request(op, widen(a), widen(b)), Narrow::IfWhole),
    }
}

/// The request for an operation on two doubles.
pub fn float_request(op: ArithOp, a: u64, b: u64) -> (r: FloatRequest)
    ensures
        r == spec_float_request(op, a, b),
{
    match op {
        ArithOp::Add => FloatRequest::Add(a, b),
        ArithOp::Sub => FloatRequest::Sub(a, b),
        ArithOp::Mul => FloatRequest::Mul(a, b),
        ArithOp::Div => FloatRequest::Div(a, b),
        ArithOp::FloorDiv => FloatRequest::FloorDiv(a, b),
        ArithOp::Rem => FloatRequest::Rem(a, b),
        ArithOp::Pow => if is_whole(b) {
            FloatRequest::PowInt(a, truncate(b))
        } else {
            FloatRequest::PowReal(a, b)
        },
    }
}

/// How the answer to an operation is narrowed where an operand was a float.
fn narrow_of(op: ArithOp) -> (r: Narrow)
    ensures
        r == float_narrow(op),
{
    match op {
        ArithOp::FloorDiv => Narrow::Always,
        _ => Narrow::Never,
    }
}

/// An arithmetic operation on two values.
pub fn arith(op: ArithOp, a: &VmValue, b: &VmValue) -> (r: Arith)
    ensures
        r@ == spec_arith(op, a@, b@),
{
    match (a, b) {
        (VmValue::Int(x), VmValue::Int(y)) => int_arith(op, *x, *y),
        (VmValue::Int(x), VmValue::Float(y)) => Arith::Ask(
            float_request(op, widen(*x), *y),
            narrow_of(op),
        ),
        (VmValue::Float(x), VmValue::Int(y)) => Arith::Ask(
            float_request(op, *x, widen(*y)),
            narrow_of(op),
        ),
        (VmValue::Float(x), VmValue::Float(y)) => Arith::Ask(
            float_request(op, *x, *y),
            narrow_of(op),
        ),
        (VmValue::String(x), VmValue::String(y)) => {
            match op {
                ArithOp::Add => Arith::Done(VmValue::String(x.clone().concat(y.as_str()))),
                _ => Arith::Mismatch,
            }
        },
        _ => Arith::Mismatch,
    }
}

/// The value that an answer becomes under a way of narrowing.
pub fn narrowed(narrow: Narrow, answer: u64) -> (r: VmValue)
    ensures
        r@ == spec_narrowed(narrow, answer),
{
    match narrow {
        Narrow::Always => VmValue::Int(truncate(answer)),
        Narrow::IfWhole => if is_whole(answer) {
            VmValue::Int(truncate(answer))
        } else {
            VmValue::Float(answer)
        },
        Narrow::Never => VmValue::Float(answer),
    }
}

/// An operation on the bits of two 32-bit integers.
pub fn bit_op(op: BitOp, a: i32, b: i32) -> (r: i32)
    ensures
        r == spec_bit_op(op, a, b),
{
    let amount: u32 = (#[verifier::truncate] (b as u32)) & 31;
    assert(amount < 32) by (bit_vector)
        requires
            amount == (b as u32) & 31,
    ;
    match op {
        BitOp::Xor => a ^ b,
        BitOp::And => a & b,
        BitOp::Or => a | b,
        BitOp::ShiftLeft => #[verifier::truncate]
        (((#[verifier::truncate] (a as u32)) << amount) as i32),
        BitOp::ShiftRight => #[verifier::truncate]
        (((#[verifier::truncate] (a as u32)) >> amount) as i32),
        BitOp::ShiftRightArithmetic => a >> amount,
    }
}

/// Negation of a number; `None` for what is no number.
pub fn negated(v: &VmValue) -> (r: Option<VmValue>)
    ensures
        match r {
            Some(n) => spec_negated(v@) == Some(n@),
            None => spec_negated(v@).is_none(),
        },
{
    match v {
        VmValue::Int(i) => Some(VmValue::Int(clamp_i64(-(*i as i64)))),
        VmValue::Float(bits) => Some(VmValue::Float(negate(*bits))),
        _ => None,
    }
}

} // verus!
