use gml_runtime::error::AssetType;
use gml_runtime::error::Error;
use gml_runtime::error::Operator;
use gml_runtime::number::Real;
use gml_runtime::value::Value;
use gml_runtime::variable::InstanceVariable;

fn num(x: f64) -> Value {
    Value::Real(Real::from_bits(x.to_bits()))
}

fn text(s: &str) -> Value {
    Value::Str(s.as_bytes().to_vec())
}

#[test]
fn messages_without_a_payload() {
    assert_eq!(Error::EndOfRoomOrder.message(), "end of room order reached");
    assert_eq!(Error::BudgetExhausted.message(), "budget exhausted");
}

#[test]
fn messages_of_operator_errors() {
    assert_eq!(
        Error::InvalidOperandsUnary(Operator::Not, text("a")).message(),
        "invalid operands string to ! operator (!\"a\")"
    );
    assert_eq!(
        Error::InvalidOperandsBinary(Operator::Add, text("hi"), num(1.0)).message(),
        "invalid operands string and real to + operator (\"hi\" + 1)"
    );
    assert_eq!(
        Error::InvalidOperandsBinary(Operator::Divide, num(7.0), num(0.0)).message(),
        "invalid operands real and real to / operator (7 / 0)"
    );
    assert_eq!(Error::InvalidUnaryOperator(Operator::Multiply).message(), "invalid unary operator *");
    assert_eq!(Error::InvalidBinaryOperator(Operator::Not).message(), "invalid binary operator !");
}

#[test]
fn messages_that_quote_source_text() {
    let s = || "a.b".to_string();
    assert_eq!(Error::InvalidAssignment(s()).message(), "invalid assignment a.b");
    assert_eq!(Error::InvalidArrayAccessor(s()).message(), "invalid array accessor a.b");
    assert_eq!(Error::InvalidDeref(s()).message(), "invalid deref a.b");
    assert_eq!(Error::InvalidIndexLhs(s()).message(), "invalid index lhs a.b");
    assert_eq!(Error::InvalidIndex(s()).message(), "invalid index a.b");
    assert_eq!(Error::InvalidSwitchBody(s()).message(), "invalid switch body a.b");
    assert_eq!(Error::UnexpectedASTExpr(s()).message(), "unexpected AST expr a.b");
    assert_eq!(Error::UnknownFunction("foo".to_string()).message(), "unknown function \"foo\"");
    assert_eq!(
        Error::FunctionError("sqrt".to_string(), "negative".to_string()).message(),
        "sqrt: negative"
    );
    assert_eq!(Error::ReplayError("bad frame".to_string()).message(), "bad frame");
    assert_eq!(
        Error::BadDirectoryError("/x".to_string()).message(),
        "cannot encode working directory /x with current encoding"
    );
}

#[test]
fn messages_with_numbers() {
    assert_eq!(Error::InvalidArrayIndex(32000).message(), "invalid array index 32000");
    assert_eq!(Error::InvalidArrayIndex(-1).message(), "invalid array index -1");
    assert_eq!(Error::InvalidArrayIndex(i32::MIN).message(), "invalid array index -2147483648");
    assert_eq!(Error::InvalidRoomSpeed(0).message(), "invalid room_speed 0");
    assert_eq!(
        Error::NonexistentAsset(AssetType::Script, 12).message(),
        "nonexistent asset id 12 (script)"
    );
    assert_eq!(Error::UninitializedArgument(3).message(), "uninitialized argument #3");
    assert_eq!(Error::TooManyArrayDimensions(3).message(), "too many array dimensions (3)");
    assert_eq!(
        Error::WrongArgumentCount(2, 10).message(),
        "wrong argument count (expected: 2, got: 10)"
    );
    assert_eq!(
        Error::UninitializedArgument(usize::MAX).message(),
        format!("uninitialized argument #{}", usize::MAX)
    );
}

#[test]
fn messages_that_name_a_variable() {
    assert_eq!(
        Error::ReadOnlyVariable(InstanceVariable::BboxLeft).message(),
        "read-only variable bbox_left"
    );
    assert_eq!(
        Error::UninitializedVariable("foo".to_string(), 0).message(),
        "uninitialized variable \"foo\""
    );
    assert_eq!(
        Error::UninitializedVariable("foo".to_string(), 7).message(),
        "uninitialized variable \"foo[7]\""
    );
}

#[test]
fn a_copy_of_an_error_has_the_same_message() {
    let e = Error::InvalidOperandsBinary(Operator::Add, text("hi"), num(2.5));
    assert_eq!(e.duplicate().message(), e.message());
    assert_eq!(e.clone().message(), "invalid operands string and real to + operator (\"hi\" + 2.5)");
}

#[test]
fn operators_have_their_symbols() {
    assert_eq!(Operator::IntDivide.symbol(), "div");
    assert_eq!(Operator::Modulo.symbol(), "mod");
    assert_eq!(Operator::BinaryShiftLeft.symbol(), "<<");
    assert_eq!(Operator::Xor.symbol(), "^^");
    assert_eq!(AssetType::Constant.name(), "constant");
}
