//! The binary and unary operators of the language and what they compute.

use vstd::prelude::*;
use crate::error::Error;
use crate::error::ErrorModel;
use crate::error::Operator;
use crate::error::value_result;
use crate::number::lemma_integer_round_trip;
use crate::number::Real;
use crate::number::ieee_div;
use crate::number::ieee_fmod;
use crate::number::ieee_sub;
use crate::number::MAGNITUDE_MASK;
use crate::number::ONE_BITS;
use crate::number::SIGN_MASK;
use crate::value::bytes_equal;
use crate::value::bytes_is_less;
use crate::value::bytes_less;
use crate::value::concat_bytes;
use crate::value::Value;
use crate::value::ValueModel;

verus! {

/// A compiled binary operator.
#[derive(Clone, Copy, Debug, PartialEq, Eq, Structural)]
pub enum BinaryOperator {
    Add,
    And,
    BitwiseAnd,
    BitwiseOr,
    BinaryShiftLeft,
    BinaryShiftRight,
    BitwiseXor,
    Divide,
    Equal,
    GreaterThan,
    GreaterThanOrEqual,
    IntDivide,
    LessThan,
    LessThanOrEqual,
    Multiply,
    Modulo,
    NotEqual,
    Or,
    Subtract,
    Xor,
}

/// A compiled unary operator. There is no unary plus: it compiles to nothing.
#[derive(Clone, Copy, Debug, PartialEq, Eq, Structural)]
pub enum UnaryOperator {
    Neg,
    Not,
    Complement,
}

/// The low five bits of a shift count.
pub open spec fn shift_count(n: i32) -> u32 {
    (n as u32) & 31
}

/// A 32-bit integer shifted left, the bits that leave on the left dropped.
pub open spec fn shift_left(a: i32, n: i32) -> i32 {
    ((a as u32) << shift_count(n)) as i32
}

/// A 32-bit integer shifted right, the sign kept.
pub open spec fn shift_right(a: i32, n: i32) -> i32 {
    a >> shift_count(n)
}

impl BinaryOperator {
    /// The operator as diagnostics name it.
    pub open spec fn spec_token(self) -> Operator {
        match self {
            BinaryOperator::Add => Operator::Add,
            BinaryOperator::And => Operator::And,
            BinaryOperator::BitwiseAnd => Operator::BitwiseAnd,
            BinaryOperator::BitwiseOr => Operator::BitwiseOr,
            BinaryOperator::BinaryShiftLeft => Operator::BinaryShiftLeft,
            BinaryOperator::BinaryShiftRight => Operator::BinaryShiftRight,
            BinaryOperator::BitwiseXor => Operator::BitwiseXor,
            BinaryOperator::Divide => Operator::Divide,
            BinaryOperator::Equal => Operator::Equal,
            BinaryOperator::GreaterThan => Operator::GreaterThan,
            BinaryOperator::GreaterThanOrEqual => Operator::GreaterThanOrEqual,
            BinaryOperator::IntDivide => Operator::IntDivide,
            BinaryOperator::LessThan => Operator::LessThan,
            BinaryOperator::LessThanOrEqual => Operator::LessThanOrEqual,
            BinaryOperator::Multiply => Operator::Multiply,
            BinaryOperator::Modulo => Operator::Modulo,
            BinaryOperator::NotEqual => Operator::NotEqual,
            BinaryOperator::Or => Operator::Or,
            BinaryOperator::Subtract => Operator::Subtract,
            BinaryOperator::Xor => Operator::Xor,
        }
    }

    #[verifier::when_used_as_spec(spec_token)]
    pub fn token(self) -> (r: Operator)
        ensures
            r == self.spec_token(),
    {
        match self {
            BinaryOperator::Add => Operator::Add,
            BinaryOperator::And => Operator::And,
            BinaryOperator::BitwiseAnd => Operator::BitwiseAnd,
            BinaryOperator::BitwiseOr => Operator::BitwiseOr,
            BinaryOperator::BinaryShiftLeft => Operator::BinaryShiftLeft,
            BinaryOperator::BinaryShiftRight => Operator::BinaryShiftRight,
            BinaryOperator::BitwiseXor => Operator::BitwiseXor,
            BinaryOperator::Divide => Operator::Divide,
            BinaryOperator::Equal => Operator::Equal,
            BinaryOperator::GreaterThan => Operator::GreaterThan,
            BinaryOperator::GreaterThanOrEqual => Operator::GreaterThanOrEqual,
            BinaryOperator::IntDivide => Operator::IntDivide,
            BinaryOperator::LessThan => Operator::LessThan,
            BinaryOperator::LessThanOrEqual => Operator::LessThanOrEqual,
            BinaryOperator::Multiply => Operator::Multiply,
            BinaryOperator::Modulo => Operator::Modulo,
            BinaryOperator::NotEqual => Operator::NotEqual,
            BinaryOperator::Or => Operator::Or,
            BinaryOperator::Subtract => Operator::Subtract,
            BinaryOperator::Xor => Operator::Xor,
        }
    }

    /// What the operator gives on two numbers. Division by a zero, of either
    /// sign, is an error for `/`, `div` and `mod`.
    pub open spec fn on_reals(self, a: Real, b: Real) -> Result<ValueModel, ErrorModel> {
        let fail = Err(
            ErrorModel::InvalidOperandsBinary(
                self.spec_token(),
                ValueModel::Real(a),
                ValueModel::Real(b),
            ),
        );
        match self {
            BinaryOperator::Add => Ok(ValueModel::Real(a.sum(b))),
            BinaryOperator::Subtract => Ok(ValueModel::Real(Real { bits: ieee_sub(a.bits, b.bits) })),
            BinaryOperator::Multiply => Ok(ValueModel::Real(a.product(b))),
            BinaryOperator::Divide => if b.is_zero() {
                fail
            } else {
                Ok(ValueModel::Real(Real { bits: ieee_div(a.bits, b.bits) }))
            },
            BinaryOperator::IntDivide => if b.is_zero() {
                fail
            } else {
                Ok(ValueModel::Real((Real { bits: ieee_div(a.bits, b.bits) }).truncated()))
            },
            BinaryOperator::Modulo => if b.is_zero() {
                fail
            } else {
                Ok(ValueModel::Real(Real { bits: ieee_fmod(a.bits, b.bits) }))
            },
            BinaryOperator::And => Ok(ValueModel::of_bool(a.truthy() && b.truthy())),
            BinaryOperator::Or => Ok(ValueModel::of_bool(a.truthy() || b.truthy())),
            BinaryOperator::Xor => Ok(ValueModel::of_bool(a.truthy() != b.truthy())),
            BinaryOperator::BitwiseAnd => Ok(ValueModel::of_int((a.rounded() & b.rounded()) as int)),
            BinaryOperator::BitwiseOr => Ok(ValueModel::of_int((a.rounded() | b.rounded()) as int)),
            BinaryOperator::BitwiseXor => Ok(ValueModel::of_int((a.rounded() ^ b.rounded()) as int)),
            BinaryOperator::BinaryShiftLeft => Ok(
                ValueModel::of_int(shift_left(a.rounded(), b.rounded()) as int),
            ),
            BinaryOperator::BinaryShiftRight => Ok(
                ValueModel::of_int(shift_right(a.rounded(), b.rounded()) as int),
            ),
            BinaryOperator::Equal => Ok(ValueModel::of_bool(a.almost_equals(b))),
            BinaryOperator::NotEqual => Ok(ValueModel::of_bool(!a.almost_equals(b))),
            BinaryOperator::LessThan => Ok(ValueModel::of_bool(a.lt(b))),
            BinaryOperator::LessThanOrEqual => Ok(ValueModel::of_bool(a.le(b))),
            BinaryOperator::GreaterThan => Ok(ValueModel::of_bool(b.lt(a))),
            BinaryOperator::GreaterThanOrEqual => Ok(ValueModel::of_bool(b.le(a))),
        }
    }

    /// What the operator gives on two strings: `+` joins them, the
    /// comparisons go byte by byte, the logical operators see two false
    /// operands, and arithmetic is an error.
    pub open spec fn on_strings(self, a: Seq<u8>, b: Seq<u8>) -> Result<ValueModel, ErrorModel> {
        match self {
            BinaryOperator::Add => Ok(ValueModel::Str(a + b)),
            BinaryOperator::And | BinaryOperator::Or | BinaryOperator::Xor => Ok(
                ValueModel::of_bool(false),
            ),
            BinaryOperator::Equal => Ok(ValueModel::of_bool(a == b)),
            BinaryOperator::NotEqual => Ok(ValueModel::of_bool(a != b)),
            BinaryOperator::LessThan => Ok(ValueModel::of_bool(bytes_less(a, b))),
            BinaryOperator::LessThanOrEqual => Ok(ValueModel::of_bool(bytes_less(a, b) || a == b)),
            BinaryOperator::GreaterThan => Ok(ValueModel::of_bool(bytes_less(b, a))),
            BinaryOperator::GreaterThanOrEqual => Ok(
                ValueModel::of_bool(bytes_less(b, a) || a == b),
            ),
            _ => Err(
                ErrorModel::InvalidOperandsBinary(
                    self.spec_token(),
                    ValueModel::Str(a),
                    ValueModel::Str(b),
                ),
            ),
        }
    }

    /// What the operator gives on two values. A number never meets a string.
    pub open spec fn apply(self, lhs: ValueModel, rhs: ValueModel) -> Result<
        ValueModel,
        ErrorModel,
    > {
        match (lhs, rhs) {
            (ValueModel::Real(a), ValueModel::Real(b)) => self.on_reals(a, b),
            (ValueModel::Str(a), ValueModel::Str(b)) => self.on_strings(a, b),
            _ => Err(ErrorModel::InvalidOperandsBinary(self.spec_token(), lhs, rhs)),
        }
    }

    fn call_reals(self, a: Real, b: Real) -> (r: Result<Value, Error>)
        ensures
            value_result(r) == self.on_reals(a, b),
    {
        match self {
            BinaryOperator::Add => Ok(Value::Real(a.plus(b))),
            BinaryOperator::Subtract => Ok(Value::Real(a.minus(b))),
            BinaryOperator::Multiply => Ok(Value::Real(a.times(b))),
            BinaryOperator::Divide => if b.check_zero() {
                Err(Error::InvalidOperandsBinary(self.token(), Value::Real(a), Value::Real(b)))
            } else {
                Ok(Value::Real(a.divided_by(b)))
            },
            BinaryOperator::IntDivide => if b.check_zero() {
                Err(Error::InvalidOperandsBinary(self.token(), Value::Real(a), Value::Real(b)))
            } else {
                Ok(Value::Real(a.divided_by(b).trunc()))
            },
            BinaryOperator::Modulo => if b.check_zero() {
                Err(Error::InvalidOperandsBinary(self.token(), Value::Real(a), Value::Real(b)))
            } else {
                Ok(Value::Real(a.remainder(b)))
            },
            BinaryOperator::And => Ok(Value::from_bool(a.is_truthy() && b.is_truthy())),
            BinaryOperator::Or => Ok(Value::from_bool(a.is_truthy() || b.is_truthy())),
            BinaryOperator::Xor => Ok(Value::from_bool(a.is_truthy() != b.is_truthy())),
            BinaryOperator::BitwiseAnd => Ok(Value::from_i32(a.round() & b.round())),
            BinaryOperator::BitwiseOr => Ok(Value::from_i32(a.round() | b.round())),
            BinaryOperator::BitwiseXor => Ok(Value::from_i32(a.round() ^ b.round())),
            BinaryOperator::BinaryShiftLeft => {
                let n: i32 = b.round();
                let count: u32 = (n as u32) & 31;
                assert(count < 32) by (bit_vector)
                    requires
                        count == (n as u32) & 31,
                ;
                Ok(Value::from_i32(((a.round() as u32) << count) as i32))
            },
            BinaryOperator::BinaryShiftRight => {
                let n: i32 = b.round();
                let count: u32 = (n as u32) & 31;
                assert(count < 32) by (bit_vector)
                    requires
                        count == (n as u32) & 31,
                ;
                Ok(Value::from_i32(a.round() >> count))
            },
            BinaryOperator::Equal => Ok(Value::from_bool(a.is_almost_equal(b))),
            BinaryOperator::NotEqual => Ok(Value::from_bool(!a.is_almost_equal(b))),
            BinaryOperator::LessThan => Ok(Value::from_bool(a.is_lt(b))),
            BinaryOperator::LessThanOrEqual => Ok(Value::from_bool(a.is_le(b))),
            BinaryOperator::GreaterThan => Ok(Value::from_bool(b.is_lt(a))),
            BinaryOperator::GreaterThanOrEqual => Ok(Value::from_bool(b.is_le(a))),
        }
    }

    fn call_strings(self, a: Vec<u8>, b: Vec<u8>) -> (r: Result<Value, Error>)
        ensures
            value_result(r) == self.on_strings(a@, b@),
    {
        match self {
            BinaryOperator::Add => Ok(Value::Str(concat_bytes(&a, &b))),
            BinaryOperator::And | BinaryOperator::Or | BinaryOperator::Xor => Ok(
                Value::from_bool(false),
            ),
            BinaryOperator::Equal => Ok(Value::from_bool(bytes_equal(&a, &b))),
            BinaryOperator::NotEqual => Ok(Value::from_bool(!bytes_equal(&a, &b))),
            BinaryOperator::LessThan => Ok(Value::from_bool(bytes_is_less(&a, &b))),
            BinaryOperator::LessThanOrEqual => Ok(
                Value::from_bool(bytes_is_less(&a, &b) || bytes_equal(&a, &b)),
            ),
            BinaryOperator::GreaterThan => Ok(Value::from_bool(bytes_is_less(&b, &a))),
            BinaryOperator::GreaterThanOrEqual => Ok(
                Value::from_bool(bytes_is_less(&b, &a) || bytes_equal(&a, &b)),
            ),
            _ => Err(Error::InvalidOperandsBinary(self.token(), Value::Str(a), Value::Str(b))),
        }
    }

    /// Applies the operator to two values.
    pub fn call(&self, lhs: Value, rhs: Value) -> (r: Result<Value, Error>)
        ensures
            value_result(r) == self.apply(lhs@, rhs@),
    {
        match lhs {
            Value::Real(a) => match rhs {
                Value::Real(b) => self.call_reals(a, b),
                Value::Str(b) => Err(
                    Error::InvalidOperandsBinary(self.token(), Value::Real(a), Value::Str(b)),
                ),
            },
            Value::Str(a) => match rhs {
                Value::Real(b) => Err(
                    Error::InvalidOperandsBinary(self.token(), Value::Str(a), Value::Real(b)),
                ),
                Value::Str(b) => self.call_strings(a, b),
            },
        }
    }
}

impl UnaryOperator {
    /// The operator as diagnostics name it.
    pub open spec fn spec_token(self) -> Operator {
        match self {
            UnaryOperator::Neg => Operator::Subtract,
            UnaryOperator::Not => Operator::Not,
            UnaryOperator::Complement => Operator::Complement,
        }
    }

    #[verifier::when_used_as_spec(spec_token)]
    pub fn token(self) -> (r: Operator)
        ensures
            r == self.spec_token(),
    {
        match self {
            UnaryOperator::Neg => Operator::Subtract,
            UnaryOperator::Not => Operator::Not,
            UnaryOperator::Complement => Operator::Complement,
        }
    }

    /// What the operator gives: on a number, its negation, the truth value
    /// of its falsehood or the complement of its rounded bits; on a string,
    /// an error.
    pub open spec fn apply(self, value: ValueModel) -> Result<ValueModel, ErrorModel> {
        match value {
            ValueModel::Real(a) => match self {
                UnaryOperator::Neg => Ok(ValueModel::Real(Real { bits: a.bits ^ SIGN_MASK })),
                UnaryOperator::Not => Ok(ValueModel::of_bool(!a.truthy())),
                UnaryOperator::Complement => Ok(ValueModel::of_int((!a.rounded()) as int)),
            },
            ValueModel::Str(_) => Err(ErrorModel::InvalidOperandsUnary(self.spec_token(), value)),
        }
    }

    /// Applies the operator to a value.
    pub fn call(&self, value: Value) -> (r: Result<Value, Error>)
        ensures
            value_result(r) == self.apply(value@),
    {
        match value {
            Value::Real(a) => match self {
                UnaryOperator::Neg => Ok(Value::Real(a.neg())),
                UnaryOperator::Not => Ok(Value::from_bool(!a.is_truthy())),
                UnaryOperator::Complement => Ok(Value::from_i32(!a.round())),
            },
            Value::Str(s) => Err(Error::InvalidOperandsUnary(self.token(), Value::Str(s))),
        }
    }
}

/// The number that stands for a truth value is true exactly when the truth
/// value is.
pub proof fn lemma_of_bool_truthy(b: bool)
    ensures
        Real::of_bool(b).truthy() == b,
{
    assert(ONE_BITS & MAGNITUDE_MASK == ONE_BITS) by (bit_vector);
    assert(ONE_BITS & SIGN_MASK == 0) by (bit_vector);
    assert(0u64 & MAGNITUDE_MASK == 0) by (bit_vector);
    assert(0u64 & SIGN_MASK == 0) by (bit_vector);
}

/// On two numbers, `+`, `*`, the logical and bitwise operators, `==` and
/// `!=` give the same result whichever operand comes first.
pub proof fn lemma_binary_commutative(op: BinaryOperator, a: Real, b: Real)
    requires
        op == BinaryOperator::Add || op == BinaryOperator::Multiply || op == BinaryOperator::And
            || op == BinaryOperator::Or || op == BinaryOperator::Xor || op
            == BinaryOperator::BitwiseAnd || op == BinaryOperator::BitwiseOr || op
            == BinaryOperator::BitwiseXor || op == BinaryOperator::Equal || op
            == BinaryOperator::NotEqual,
    ensures
        op.apply(ValueModel::Real(a), ValueModel::Real(b)) == op.apply(
            ValueModel::Real(b),
            ValueModel::Real(a),
        ),
{
    let x = a.rounded();
    let y = b.rounded();
    assert(x & y == y & x) by (bit_vector);
    assert(x | y == y | x) by (bit_vector);
    assert(x ^ y == y ^ x) by (bit_vector);
}

/// `==` and `!=` are symmetric on every pair of values of one type, and
/// `>` and `>=` are `<` and `<=` with the operands exchanged.
pub proof fn lemma_comparisons_mirror(a: ValueModel, b: ValueModel)
    requires
        (a is Real) == (b is Real),
    ensures
        BinaryOperator::Equal.apply(a, b) == BinaryOperator::Equal.apply(b, a),
        BinaryOperator::NotEqual.apply(a, b) == BinaryOperator::NotEqual.apply(b, a),
        BinaryOperator::GreaterThan.apply(a, b) == BinaryOperator::LessThan.apply(b, a),
        BinaryOperator::GreaterThanOrEqual.apply(a, b) == BinaryOperator::LessThanOrEqual.apply(
            b,
            a,
        ),
{
}

/// `==` on two numbers is true only if their difference, taken from the
/// larger encoding to the smaller, has a magnitude under the tolerance.
pub proof fn lemma_equal_within_tolerance(a: Real, b: Real)
    requires
        BinaryOperator::Equal.apply(ValueModel::Real(a), ValueModel::Real(b)) == Ok::<
            ValueModel,
            ErrorModel,
        >(ValueModel::of_bool(true)),
    ensures
        (a.gap_bits(b) & MAGNITUDE_MASK) < crate::number::EPSILON_BITS,
{
    assert(ONE_BITS != 0) by (bit_vector);
}

/// The logical and the bitwise operators are associative on numbers, and
/// `+` is on strings.
pub proof fn lemma_binary_associative(a: ValueModel, b: ValueModel, c: ValueModel)
    ensures
        (a is Real && b is Real && c is Real) ==> {
            &&& chain_left(BinaryOperator::And, a, b, c) == chain_right(BinaryOperator::And, a, b, c)
            &&& chain_left(BinaryOperator::Or, a, b, c) == chain_right(BinaryOperator::Or, a, b, c)
            &&& chain_left(BinaryOperator::Xor, a, b, c) == chain_right(BinaryOperator::Xor, a, b, c)
            &&& chain_left(BinaryOperator::BitwiseAnd, a, b, c) == chain_right(
                BinaryOperator::BitwiseAnd,
                a,
                b,
                c,
            )
            &&& chain_left(BinaryOperator::BitwiseOr, a, b, c) == chain_right(
                BinaryOperator::BitwiseOr,
                a,
                b,
                c,
            )
            &&& chain_left(BinaryOperator::BitwiseXor, a, b, c) == chain_right(
                BinaryOperator::BitwiseXor,
                a,
                b,
                c,
            )
        },
        (a is Str && b is Str && c is Str) ==> chain_left(BinaryOperator::Add, a, b, c)
            == chain_right(BinaryOperator::Add, a, b, c),
{
    lemma_of_bool_truthy(true);
    lemma_of_bool_truthy(false);
    if a is Real && b is Real && c is Real {
        let x = a.to_i32();
        let y = b.to_i32();
        let z = c.to_i32();
        lemma_integer_round_trip((x & y) as int);
        lemma_integer_round_trip((y & z) as int);
        lemma_integer_round_trip((x | y) as int);
        lemma_integer_round_trip((y | z) as int);
        lemma_integer_round_trip((x ^ y) as int);
        lemma_integer_round_trip((y ^ z) as int);
        assert((x & y) & z == x & (y & z)) by (bit_vector);
        assert((x | y) | z == x | (y | z)) by (bit_vector);
        assert((x ^ y) ^ z == x ^ (y ^ z)) by (bit_vector);
    }
    if a is Str && b is Str && c is Str {
        let x = a->Str_0;
        let y = b->Str_0;
        let z = c->Str_0;
        assert((x + y) + z =~= x + (y + z));
    }
}

/// `(a op b) op c`, an error of the inner operation passed on.
pub open spec fn chain_left(op: BinaryOperator, a: ValueModel, b: ValueModel, c: ValueModel)
    -> Result<ValueModel, ErrorModel> {
    match op.apply(a, b) {
        Ok(ab) => op.apply(ab, c),
        Err(e) => Err(e),
    }
}

/// `a op (b op c)`, an error of the inner operation passed on.
pub open spec fn chain_right(op: BinaryOperator, a: ValueModel, b: ValueModel, c: ValueModel)
    -> Result<ValueModel, ErrorModel> {
    match op.apply(b, c) {
        Ok(bc) => op.apply(a, bc),
        Err(e) => Err(e),
    }
}

} // verus!
