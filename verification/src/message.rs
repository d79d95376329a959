//! The text of a runtime error, as a player or an author gets to read it.

use vstd::prelude::*;
use vstd::string::StringExecFns;
use crate::error::Error;
use crate::error::ErrorModel;
use crate::number::ieee_text;
use crate::value::Value;
use crate::value::ValueModel;

verus! {

/// `String::push`: the text with one more character at its end.
#[verifier::external_body]
fn push_char(text: &mut String, c: char)
    ensures
        final(text)@ == old(text)@.push(c),
{
    text.push(c)
}

/// The decimal digits of a natural number, without leading zeros.
pub open spec fn digits(n: nat) -> Seq<char>
    decreases n,
{
    if n < 10 {
        seq![((48 + n) as u8) as char]
    } else {
        digits(n / 10).push(((48 + n % 10) as u8) as char)
    }
}

/// The decimal text of an integer.
pub open spec fn decimal(n: int) -> Seq<char> {
    if n < 0 {
        seq!['-'] + digits((-n) as nat)
    } else {
        digits(n as nat)
    }
}

/// A byte string as text, each byte as the character with its number.
pub open spec fn byte_text(s: Seq<u8>) -> Seq<char> {
    Seq::new(s.len(), |i: int| s[i] as char)
}

/// A value as diagnostics show it: a number in decimal, a string between
/// double quotes.
pub open spec fn value_text(v: ValueModel) -> Seq<char> {
    match v {
        ValueModel::Real(r) => ieee_text(r.bits),
        ValueModel::Str(s) => seq!['"'] + byte_text(s) + seq!['"'],
    }
}

/// The name of the type of a value.
pub open spec fn type_text(v: ValueModel) -> Seq<char> {
    match v {
        ValueModel::Real(_) => "real"@,
        ValueModel::Str(_) => "string"@,
    }
}

/// The text of an error.
pub open spec fn message_text(e: ErrorModel) -> Seq<char> {
    match e {
        ErrorModel::EndOfRoomOrder => "end of room order reached"@,
        ErrorModel::InvalidOperandsUnary(op, x) => "invalid operands "@ + type_text(x) + " to "@
            + op.spec_symbol() + " operator ("@ + op.spec_symbol() + value_text(x) + ")"@,
        ErrorModel::InvalidOperandsBinary(op, x, y) => "invalid operands "@ + type_text(x)
            + " and "@ + type_text(y) + " to "@ + op.spec_symbol() + " operator ("@ + value_text(x)
            + " "@ + op.spec_symbol() + " "@ + value_text(y) + ")"@,
        ErrorModel::InvalidUnaryOperator(op) => "invalid unary operator "@ + op.spec_symbol(),
        ErrorModel::InvalidBinaryOperator(op) => "invalid binary operator "@ + op.spec_symbol(),
        ErrorModel::InvalidAssignment(expr) => "invalid assignment "@ + expr,
        ErrorModel::InvalidArrayAccessor(expr) => "invalid array accessor "@ + expr,
        ErrorModel::InvalidArrayIndex(index) => "invalid array index "@ + decimal(index as int),
        ErrorModel::InvalidDeref(expr) => "invalid deref "@ + expr,
        ErrorModel::InvalidIndexLhs(expr) => "invalid index lhs "@ + expr,
        ErrorModel::InvalidIndex(expr) => "invalid index "@ + expr,
        ErrorModel::InvalidRoomSpeed(value) => "invalid room_speed "@ + decimal(value as int),
        ErrorModel::InvalidSwitchBody(expr) => "invalid switch body "@ + expr,
        ErrorModel::NonexistentAsset(ty, id) => "nonexistent asset id "@ + decimal(id as int)
            + " ("@ + ty.spec_name() + ")"@,
        ErrorModel::ReadOnlyVariable(v) => "read-only variable "@ + v.spec_name(),
        ErrorModel::UnknownFunction(name) => "unknown function \""@ + name + "\""@,
        ErrorModel::UnexpectedASTExpr(expr) => "unexpected AST expr "@ + expr,
        ErrorModel::UninitializedVariable(name, index) => if index == 0 {
            "uninitialized variable \""@ + name + "\""@
        } else {
            "uninitialized variable \""@ + name + "["@ + decimal(index as int) + "]\""@
        },
        ErrorModel::UninitializedArgument(n) => "uninitialized argument #"@ + decimal(n as int),
        ErrorModel::TooManyArrayDimensions(n) => "too many array dimensions ("@ + decimal(n as int)
            + ")"@,
        ErrorModel::WrongArgumentCount(expected, got) => "wrong argument count (expected: "@
            + decimal(expected as int) + ", got: "@ + decimal(got as int) + ")"@,
        ErrorModel::FunctionError(name, text) => name + ": "@ + text,
        ErrorModel::ReplayError(text) => text,
        ErrorModel::BadDirectoryError(path) => "cannot encode working directory "@ + path
            + " with current encoding"@,
        ErrorModel::BudgetExhausted => "budget exhausted"@,
    }
}

/// Appends the decimal digits of a number to a text.
fn push_digits(text: &mut String, n: u128)
    ensures
        final(text)@ == old(text)@ + digits(n as nat),
    decreases n,
{
    if n < 10 {
        push_char(text, ((48 + n) as u8) as char);
        assert(text@ =~= old(text)@ + digits(n as nat));
    } else {
        push_digits(text, n / 10);
        push_char(text, ((48 + n % 10) as u8) as char);
        assert(text@ =~= old(text)@ + digits(n as nat));
    }
}

/// Appends the decimal text of an integer to a text.
fn push_decimal(text: &mut String, n: i128)
    requires
        n > i128::MIN,
    ensures
        final(text)@ == old(text)@ + decimal(n as int),
{
    if n < 0 {
        push_char(text, '-');
        push_digits(text, (-n) as u128);
        assert(text@ =~= old(text)@ + decimal(n as int));
    } else {
        push_digits(text, n as u128);
    }
}

/// Appends a byte string to a text, each byte as the character with its
/// number.
fn push_bytes(text: &mut String, s: &Vec<u8>)
    ensures
        final(text)@ == old(text)@ + byte_text(s@),
{
    let mut i: usize = 0;
    assert(text@ =~= old(text)@ + byte_text(s@.take(0)));
    while i < s.len()
        invariant
            i <= s.len(),
            text@ == old(text)@ + byte_text(s@.take(i as int)),
        decreases s.len() - i,
    {
        push_char(text, s[i] as char);
        assert(text@ =~= old(text)@ + byte_text(s@.take(i + 1)));
        i += 1;
    }
    assert(s@.take(s.len() as int) =~= s@);
}

/// Appends a value to a text as diagnostics show it.
fn push_value(text: &mut String, v: &Value)
    ensures
        final(text)@ == old(text)@ + value_text(v@),
{
    match v {
        Value::Real(r) => {
            let t = r.text();
            text.append(t.as_str());
        },
        Value::Str(s) => {
            push_char(text, '"');
            push_bytes(text, s);
            push_char(text, '"');
            assert(text@ =~= old(text)@ + value_text(v@));
        },
    }
}

/// A text made of a fixed part and a part that varies.
fn join(head: &str, tail: &str) -> (r: String)
    ensures
        r@ == head@ + tail@,
{
    let mut r = String::from_str(head);
    r.append(tail);
    r
}

/// A text made of a fixed part and a number.
fn join_number(head: &str, n: i128, tail: &str) -> (r: String)
    requires
        n > i128::MIN,
    ensures
        r@ == head@ + decimal(n as int) + tail@,
{
    let mut r = String::from_str(head);
    push_decimal(&mut r, n);
    r.append(tail);
    r
}

impl Error {
    /// The text of the error.
    pub fn message(&self) -> (r: String)
        ensures
            r@ == message_text(self@),
    {
        let r = match self {
            Error::EndOfRoomOrder => String::from_str("end of room order reached"),
            Error::InvalidOperandsUnary(op, x) => {
                let mut r = String::from_str("invalid operands ");
                r.append(x.ty_str());
                r.append(" to ");
                r.append(op.symbol());
                r.append(" operator (");
                r.append(op.symbol());
                push_value(&mut r, x);
                r.append(")");
                r
            },
            Error::InvalidOperandsBinary(op, x, y) => {
                let mut r = String::from_str("invalid operands ");
                r.append(x.ty_str());
                r.append(" and ");
                r.append(y.ty_str());
                r.append(" to ");
                r.append(op.symbol());
                r.append(" operator (");
                push_value(&mut r, x);
                r.append(" ");
                r.append(op.symbol());
                r.append(" ");
                push_value(&mut r, y);
                r.append(")");
                r
            },
            Error::InvalidUnaryOperator(op) => join("invalid unary operator ", op.symbol()),
            Error::InvalidBinaryOperator(op) => join("invalid binary operator ", op.symbol()),
            Error::InvalidAssignment(expr) => join("invalid assignment ", expr.as_str()),
            Error::InvalidArrayAccessor(expr) => join("invalid array accessor ", expr.as_str()),
            Error::InvalidArrayIndex(index) => join_number("invalid array index ", *index as i128, ""),
            Error::InvalidDeref(expr) => join("invalid deref ", expr.as_str()),
            Error::InvalidIndexLhs(expr) => join("invalid index lhs ", expr.as_str()),
            Error::InvalidIndex(expr) => join("invalid index ", expr.as_str()),
            Error::InvalidRoomSpeed(value) => join_number("invalid room_speed ", *value as i128, ""),
            Error::InvalidSwitchBody(expr) => join("invalid switch body ", expr.as_str()),
            Error::NonexistentAsset(ty, id) => {
                let mut r = join_number("nonexistent asset id ", *id as i128, " (");
                r.append(ty.name());
                r.append(")");
                r
            },
            Error::ReadOnlyVariable(v) => join("read-only variable ", v.name()),
            Error::UnknownFunction(name) => {
                let mut r = join("unknown function \"", name.as_str());
                r.append("\"");
                r
            },
            Error::UnexpectedASTExpr(expr) => join("unexpected AST expr ", expr.as_str()),
            Error::UninitializedVariable(name, index) => {
                let mut r = join("uninitialized variable \"", name.as_str());
                if *index == 0 {
                    r.append("\"");
                } else {
                    r.append("[");
                    push_decimal(&mut r, *index as i128);
                    r.append("]\"");
                }
                r
            },
            Error::UninitializedArgument(n) => join_number("uninitialized argument #", *n as i128, ""),
            Error::TooManyArrayDimensions(n) => join_number(
                "too many array dimensions (",
                *n as i128,
                ")",
            ),
            Error::WrongArgumentCount(expected, got) => {
                let mut r = join_number("wrong argument count (expected: ", *expected as i128, ", got: ");
                push_decimal(&mut r, *got as i128);
                r.append(")");
                r
            },
            Error::FunctionError(name, text) => {
                let mut r = join(name.as_str(), ": ");
                r.append(text.as_str());
                r
            },
            Error::ReplayError(text) => text.clone(),
            Error::BadDirectoryError(path) => {
                let mut r = join("cannot encode working directory ", path.as_str());
                r.append(" with current encoding");
                r
            },
            Error::BudgetExhausted => String::from_str("budget exhausted"),
        };
        proof {
            reveal_strlit("");
            assert(r@ =~= message_text(self@));
        }
        r
    }
}

} // verus!
