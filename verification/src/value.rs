//! Values of the scripting language: a number or a byte string.

use vstd::prelude::*;
use crate::number::Real;

verus! {

/// A value as scripts see it.
#[derive(Debug)]
pub enum Value {
    Real(Real),
    Str(Vec<u8>),
}

/// What a `Value` stands for in contracts.
pub enum ValueModel {
    Real(Real),
    Str(Seq<u8>),
}

impl View for Value {
    type V = ValueModel;

    open spec fn view(&self) -> ValueModel {
        match self {
            Value::Real(r) => ValueModel::Real(*r),
            Value::Str(s) => ValueModel::Str(s@),
        }
    }
}

impl ValueModel {
    /// The number zero, which stands in for whatever was never set.
    pub open spec fn zero() -> ValueModel {
        ValueModel::Real(Real { bits: 0 })
    }

    pub open spec fn of_bool(b: bool) -> ValueModel {
        ValueModel::Real(Real::of_bool(b))
    }

    pub open spec fn of_int(n: int) -> ValueModel {
        ValueModel::Real(Real::of_int(n))
    }

    /// A string counts as the number zero.
    pub open spec fn to_real(self) -> Real {
        match self {
            ValueModel::Real(r) => r,
            ValueModel::Str(_) => Real { bits: 0 },
        }
    }

    /// The value as a 32-bit integer: a number is rounded, a string is zero.
    pub open spec fn to_i32(self) -> i32 {
        match self {
            ValueModel::Real(r) => r.rounded(),
            ValueModel::Str(_) => 0,
        }
    }

    /// A number is true from 0.5 on; no string is true.
    pub open spec fn truthy(self) -> bool {
        match self {
            ValueModel::Real(r) => r.truthy(),
            ValueModel::Str(_) => false,
        }
    }

    /// A number counts as the empty string.
    pub open spec fn to_bytes(self) -> Seq<u8> {
        match self {
            ValueModel::Real(_) => Seq::empty(),
            ValueModel::Str(s) => s,
        }
    }

    /// Equality as `switch` and `==` see it: numbers within the tolerance,
    /// strings byte for byte, and never a number with a string.
    pub open spec fn almost_equals(self, other: ValueModel) -> bool {
        match (self, other) {
            (ValueModel::Real(a), ValueModel::Real(b)) => a.almost_equals(b),
            (ValueModel::Str(a), ValueModel::Str(b)) => a == b,
            _ => false,
        }
    }
}

/// Lexicographic `<` on byte strings.
pub open spec fn bytes_less(a: Seq<u8>, b: Seq<u8>) -> bool
    decreases a.len(),
{
    if b.len() == 0 {
        false
    } else if a.len() == 0 {
        true
    } else if a[0] != b[0] {
        a[0] < b[0]
    } else {
        bytes_less(a.skip(1), b.skip(1))
    }
}

/// Copies a byte string.
pub fn copy_bytes(s: &Vec<u8>) -> (r: Vec<u8>)
    ensures
        r@ == s@,
{
    let mut r: Vec<u8> = Vec::new();
    let mut i: usize = 0;
    while i < s.len()
        invariant
            i <= s.len(),
            r@ == s@.take(i as int),
        decreases s.len() - i,
    {
        r.push(s[i]);
        i += 1;
    }
    r
}

/// Joins two byte strings.
pub fn concat_bytes(a: &Vec<u8>, b: &Vec<u8>) -> (r: Vec<u8>)
    ensures
        r@ == a@ + b@,
{
    let mut r = copy_bytes(a);
    let mut i: usize = 0;
    while i < b.len()
        invariant
            i <= b.len(),
            r@ == a@ + b@.take(i as int),
        decreases b.len() - i,
    {
        r.push(b[i]);
        i += 1;
    }
    r
}

/// Compares two byte strings for equality.
pub fn bytes_equal(a: &Vec<u8>, b: &Vec<u8>) -> (r: bool)
    ensures
        r == (a@ == b@),
{
    if a.len() != b.len() {
        return false;
    }
    let mut i: usize = 0;
    while i < a.len()
        invariant
            i <= a.len(),
            a.len() == b.len(),
            a@.take(i as int) == b@.take(i as int),
        decreases a.len() - i,
    {
        if a[i] != b[i] {
            return false;
        }
        assert(a@.take(i + 1) == a@.take(i as int).push(a@[i as int]));
        assert(b@.take(i + 1) == b@.take(i as int).push(b@[i as int]));
        i += 1;
    }
    assert(a@ == a@.take(a.len() as int));
    assert(b@ == b@.take(b.len() as int));
    true
}

/// Lexicographic `<` on byte strings.
pub fn bytes_is_less(a: &Vec<u8>, b: &Vec<u8>) -> (r: bool)
    ensures
        r == bytes_less(a@, b@),
{
    let mut i: usize = 0;
    assert(a@.skip(0) == a@ && b@.skip(0) == b@);
    while i < a.len() && i < b.len()
        invariant
            i <= a.len(),
            i <= b.len(),
            bytes_less(a@, b@) == bytes_less(a@.skip(i as int), b@.skip(i as int)),
        decreases a.len() - i,
    {
        let ghost sa = a@.skip(i as int);
        let ghost sb = b@.skip(i as int);
        assert(sa[0] == a@[i as int] && sb[0] == b@[i as int]);
        if a[i] != b[i] {
            return a[i] < b[i];
        }
        assert(sa.skip(1) == a@.skip(i + 1));
        assert(sb.skip(1) == b@.skip(i + 1));
        i += 1;
    }
    i < b.len()
}

impl Value {
    pub fn zero() -> (r: Value)
        ensures
            r@ == ValueModel::zero(),
    {
        Value::Real(Real::zero())
    }

    pub fn from_real(r: Real) -> (v: Value)
        ensures
            v@ == ValueModel::Real(r),
    {
        Value::Real(r)
    }

    pub fn from_bool(b: bool) -> (v: Value)
        ensures
            v@ == ValueModel::of_bool(b),
            v@.truthy() == b,
    {
        Value::Real(Real::from_bool(b))
    }

    pub fn from_i32(n: i32) -> (v: Value)
        ensures
            v@ == ValueModel::of_int(n as int),
            v@.to_i32() == n,
    {
        Value::Real(Real::from_i32(n))
    }

    pub fn from_u32(n: u32) -> (v: Value)
        ensures
            v@ == ValueModel::of_int(n as int),
    {
        Value::Real(Real::from_u32(n))
    }

    pub fn from_usize(n: usize) -> (v: Value)
        ensures
            v@ == ValueModel::of_int(n as int),
    {
        Value::Real(Real::from_usize(n))
    }

    pub fn from_bytes(s: Vec<u8>) -> (v: Value)
        ensures
            v@ == ValueModel::Str(s@),
    {
        Value::Str(s)
    }

    /// A copy of the value.
    pub fn duplicate(&self) -> (r: Value)
        ensures
            r@ == self@,
    {
        match self {
            Value::Real(x) => Value::Real(*x),
            Value::Str(s) => Value::Str(copy_bytes(s)),
        }
    }

    pub fn to_real(&self) -> (r: Real)
        ensures
            r == self@.to_real(),
    {
        match self {
            Value::Real(x) => *x,
            Value::Str(_) => Real::zero(),
        }
    }

    pub fn to_i32(&self) -> (r: i32)
        ensures
            r == self@.to_i32(),
    {
        match self {
            Value::Real(x) => x.round(),
            Value::Str(_) => 0,
        }
    }

    /// The value rounded to an integer; the same as `to_i32`.
    pub fn round(&self) -> (r: i32)
        ensures
            r == self@.to_i32(),
    {
        self.to_i32()
    }

    pub fn is_truthy(&self) -> (r: bool)
        ensures
            r == self@.truthy(),
    {
        match self {
            Value::Real(x) => x.is_truthy(),
            Value::Str(_) => false,
        }
    }

    pub fn to_bytes(&self) -> (r: Vec<u8>)
        ensures
            r@ == self@.to_bytes(),
    {
        match self {
            Value::Real(_) => Vec::new(),
            Value::Str(s) => copy_bytes(s),
        }
    }

    pub fn almost_equals(&self, other: &Value) -> (r: bool)
        ensures
            r == self@.almost_equals(other@),
    {
        match self {
            Value::Real(a) => match other {
                Value::Real(b) => a.is_almost_equal(*b),
                Value::Str(_) => false,
            },
            Value::Str(a) => match other {
                Value::Real(_) => false,
                Value::Str(b) => bytes_equal(a, b),
            },
        }
    }

    /// The name of the value's type, as diagnostics print it.
    pub fn ty_str(&self) -> (r: &'static str)
        ensures
            r@ == (if self@ is Real { "real"@ } else { "string"@ }),
    {
        match self {
            Value::Real(_) => "real",
            Value::Str(_) => "string",
        }
    }
}

impl Clone for Value {
    fn clone(&self) -> (r: Value)
        ensures
            r@ == self@,
    {
        self.duplicate()
    }
}

/// The equality of values does not depend on the order of its operands.
pub proof fn lemma_value_almost_equals_symmetric(a: ValueModel, b: ValueModel)
    ensures
        a.almost_equals(b) == b.almost_equals(a),
{
}

} // verus!
