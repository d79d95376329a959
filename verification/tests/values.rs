use gml_runtime::error::Error;
use gml_runtime::error::Operator;
use gml_runtime::number::Real;
use gml_runtime::operator::BinaryOperator;
use gml_runtime::operator::UnaryOperator;
use gml_runtime::value::Value;

fn num(x: f64) -> Value {
    Value::Real(Real::from_bits(x.to_bits()))
}

fn text(s: &str) -> Value {
    Value::Str(s.as_bytes().to_vec())
}

fn as_f64(v: &Value) -> f64 {
    match v {
        Value::Real(r) => f64::from_bits(r.to_bits()),
        Value::Str(_) => panic!("not a number"),
    }
}

fn as_text(v: &Value) -> Vec<u8> {
    match v {
        Value::Real(_) => panic!("not a string"),
        Value::Str(s) => s.clone(),
    }
}

fn binary(op: BinaryOperator, a: f64, b: f64) -> f64 {
    as_f64(&op.call(num(a), num(b)).unwrap())
}

#[test]
fn divide_seven_by_two() {
    assert_eq!(binary(BinaryOperator::Divide, 7.0, 2.0), 3.5);
}

#[test]
fn int_divide_seven_by_two() {
    assert_eq!(binary(BinaryOperator::IntDivide, 7.0, 2.0), 3.0);
    assert_eq!(binary(BinaryOperator::IntDivide, -7.0, 2.0), -3.0);
}

#[test]
fn division_by_zero_is_an_error() {
    for op in [BinaryOperator::Divide, BinaryOperator::IntDivide, BinaryOperator::Modulo] {
        match op.call(num(7.0), num(0.0)) {
            Err(Error::InvalidOperandsBinary(token, a, b)) => {
                assert_eq!(token, op.token());
                assert_eq!(as_f64(&a), 7.0);
                assert_eq!(as_f64(&b), 0.0);
            },
            other => panic!("expected an error, got {:?}", other),
        }
        assert!(op.call(num(7.0), num(-0.0)).is_err());
    }
}

#[test]
fn add_joins_strings() {
    let r = BinaryOperator::Add.call(text("hi"), text("!")).unwrap();
    assert_eq!(as_text(&r), b"hi!".to_vec());
}

#[test]
fn add_refuses_string_and_number() {
    match BinaryOperator::Add.call(text("hi"), num(1.0)) {
        Err(Error::InvalidOperandsBinary(Operator::Add, a, b)) => {
            assert_eq!(as_text(&a), b"hi".to_vec());
            assert_eq!(as_f64(&b), 1.0);
        },
        other => panic!("expected InvalidOperandsBinary, got {:?}", other),
    }
    assert!(matches!(
        BinaryOperator::Add.call(num(1.0), text("hi")),
        Err(Error::InvalidOperandsBinary(Operator::Add, _, _))
    ));
}

#[test]
fn every_operator_refuses_mixed_operands() {
    let ops = [
        BinaryOperator::Add,
        BinaryOperator::And,
        BinaryOperator::BitwiseAnd,
        BinaryOperator::BitwiseOr,
        BinaryOperator::BinaryShiftLeft,
        BinaryOperator::BinaryShiftRight,
        BinaryOperator::BitwiseXor,
        BinaryOperator::Divide,
        BinaryOperator::Equal,
        BinaryOperator::GreaterThan,
        BinaryOperator::GreaterThanOrEqual,
        BinaryOperator::IntDivide,
        BinaryOperator::LessThan,
        BinaryOperator::LessThanOrEqual,
        BinaryOperator::Multiply,
        BinaryOperator::Modulo,
        BinaryOperator::NotEqual,
        BinaryOperator::Or,
        BinaryOperator::Subtract,
        BinaryOperator::Xor,
    ];
    for op in ops {
        assert!(matches!(op.call(num(1.0), text("a")), Err(Error::InvalidOperandsBinary(_, _, _))));
        assert!(matches!(op.call(text("a"), num(1.0)), Err(Error::InvalidOperandsBinary(_, _, _))));
    }
}

#[test]
fn arithmetic_on_numbers() {
    assert_eq!(binary(BinaryOperator::Add, 1.0, 2.0), 3.0);
    assert_eq!(binary(BinaryOperator::Add, 0.1, 0.2), 0.1 + 0.2);
    assert_eq!(binary(BinaryOperator::Subtract, 5.0, 3.0), 2.0);
    assert_eq!(binary(BinaryOperator::Subtract, 3.0, 5.0), -2.0);
    assert_eq!(binary(BinaryOperator::Multiply, 3.0, 4.0), 12.0);
    assert_eq!(binary(BinaryOperator::Multiply, 1.5, -2.5), -3.75);
    assert_eq!(binary(BinaryOperator::Divide, 1.0, 3.0), 1.0 / 3.0);
    assert_eq!(binary(BinaryOperator::Modulo, 7.0, 2.0), 1.0);
    assert_eq!(binary(BinaryOperator::Modulo, 7.5, 2.0), 1.5);
    assert_eq!(binary(BinaryOperator::Modulo, -7.0, 2.0), -1.0);
}

#[test]
fn arithmetic_on_strings_is_an_error() {
    for op in [
        BinaryOperator::Subtract,
        BinaryOperator::Multiply,
        BinaryOperator::Divide,
        BinaryOperator::IntDivide,
        BinaryOperator::Modulo,
        BinaryOperator::BitwiseAnd,
        BinaryOperator::BinaryShiftLeft,
    ] {
        assert!(matches!(op.call(text("a"), text("b")), Err(Error::InvalidOperandsBinary(_, _, _))));
    }
}

#[test]
fn bitwise_operators_round_their_operands() {
    assert_eq!(binary(BinaryOperator::BitwiseAnd, 6.0, 3.0), 2.0);
    assert_eq!(binary(BinaryOperator::BitwiseOr, 6.0, 3.0), 7.0);
    assert_eq!(binary(BinaryOperator::BitwiseXor, 6.0, 3.0), 5.0);
    assert_eq!(binary(BinaryOperator::BitwiseAnd, 6.4, 2.6), 2.0);
    assert_eq!(binary(BinaryOperator::BinaryShiftLeft, 1.0, 4.0), 16.0);
    assert_eq!(binary(BinaryOperator::BinaryShiftRight, 16.0, 2.0), 4.0);
    assert_eq!(binary(BinaryOperator::BinaryShiftRight, -16.0, 2.0), -4.0);
    assert_eq!(binary(BinaryOperator::BinaryShiftLeft, 1.0, 33.0), 2.0);
}

#[test]
fn logical_operators_use_truthiness() {
    assert_eq!(binary(BinaryOperator::And, 1.0, 0.5), 1.0);
    assert_eq!(binary(BinaryOperator::And, 1.0, 0.49), 0.0);
    assert_eq!(binary(BinaryOperator::Or, 0.0, 0.7), 1.0);
    assert_eq!(binary(BinaryOperator::Or, 0.0, -3.0), 0.0);
    assert_eq!(binary(BinaryOperator::Xor, 1.0, 1.0), 0.0);
    assert_eq!(binary(BinaryOperator::Xor, 1.0, 0.0), 1.0);
}

#[test]
fn equality_has_a_tolerance() {
    assert_eq!(binary(BinaryOperator::Equal, 1.0, 1.0), 1.0);
    assert_eq!(binary(BinaryOperator::Equal, 1.0, 1.0 + 1e-14), 1.0);
    assert_eq!(binary(BinaryOperator::Equal, 1.0, 1.0 + 1e-12), 0.0);
    assert_eq!(binary(BinaryOperator::NotEqual, 1.0, 1.0 + 1e-14), 0.0);
    assert_eq!(binary(BinaryOperator::NotEqual, 1.0, 2.0), 1.0);
    assert_eq!(binary(BinaryOperator::Equal, 0.0, -0.0), 1.0);
}

#[test]
fn equality_is_symmetric() {
    let samples = [0.0, -0.0, 1.0, 1.0 + 1e-14, 1.0 + 1e-12, -5.5, 1e300, f64::INFINITY, f64::NAN];
    for a in samples {
        for b in samples {
            assert_eq!(
                binary(BinaryOperator::Equal, a, b),
                binary(BinaryOperator::Equal, b, a),
                "{} == {}",
                a,
                b
            );
            let equal = binary(BinaryOperator::Equal, a, b) == 1.0;
            if equal {
                assert!((a - b).abs() < 1e-13);
            }
        }
    }
}

#[test]
fn commutative_operators_commute() {
    let samples = [0.0, 1.0, -2.5, 7.0, 1e10, 0.1];
    let ops = [
        BinaryOperator::Add,
        BinaryOperator::Multiply,
        BinaryOperator::And,
        BinaryOperator::Or,
        BinaryOperator::Xor,
        BinaryOperator::BitwiseAnd,
        BinaryOperator::BitwiseOr,
        BinaryOperator::BitwiseXor,
        BinaryOperator::Equal,
        BinaryOperator::NotEqual,
    ];
    for op in ops {
        for a in samples {
            for b in samples {
                assert_eq!(binary(op, a, b), binary(op, b, a));
            }
        }
    }
}

#[test]
fn comparisons_on_numbers() {
    assert_eq!(binary(BinaryOperator::LessThan, 1.0, 2.0), 1.0);
    assert_eq!(binary(BinaryOperator::LessThan, 2.0, 1.0), 0.0);
    assert_eq!(binary(BinaryOperator::LessThan, -1.0, 1.0), 1.0);
    assert_eq!(binary(BinaryOperator::LessThan, -2.0, -1.0), 1.0);
    assert_eq!(binary(BinaryOperator::LessThan, 1.0, 1.0 + 1e-14), 0.0);
    assert_eq!(binary(BinaryOperator::LessThanOrEqual, 1.0 + 1e-14, 1.0), 1.0);
    assert_eq!(binary(BinaryOperator::LessThanOrEqual, 2.0, 1.0), 0.0);
    assert_eq!(binary(BinaryOperator::GreaterThan, 2.0, 1.0), 1.0);
    assert_eq!(binary(BinaryOperator::GreaterThan, 1.0, 2.0), 0.0);
    assert_eq!(binary(BinaryOperator::GreaterThanOrEqual, 1.0, 1.0), 1.0);
    assert_eq!(binary(BinaryOperator::GreaterThanOrEqual, 0.0, 1.0), 0.0);
    assert_eq!(binary(BinaryOperator::LessThan, f64::NAN, 1.0), 0.0);
}

#[test]
fn comparisons_on_strings() {
    let t = |op: BinaryOperator, a: &str, b: &str| as_f64(&op.call(text(a), text(b)).unwrap());
    assert_eq!(t(BinaryOperator::Equal, "abc", "abc"), 1.0);
    assert_eq!(t(BinaryOperator::Equal, "abc", "abd"), 0.0);
    assert_eq!(t(BinaryOperator::NotEqual, "abc", "abd"), 1.0);
    assert_eq!(t(BinaryOperator::LessThan, "abc", "abd"), 1.0);
    assert_eq!(t(BinaryOperator::LessThan, "ab", "abc"), 1.0);
    assert_eq!(t(BinaryOperator::LessThan, "abc", "ab"), 0.0);
    assert_eq!(t(BinaryOperator::LessThan, "abc", "abc"), 0.0);
    assert_eq!(t(BinaryOperator::LessThanOrEqual, "abc", "abc"), 1.0);
    assert_eq!(t(BinaryOperator::GreaterThan, "b", "a"), 1.0);
    assert_eq!(t(BinaryOperator::GreaterThanOrEqual, "a", "b"), 0.0);
    assert_eq!(t(BinaryOperator::And, "a", "b"), 0.0);
    assert_eq!(t(BinaryOperator::Or, "a", "b"), 0.0);
}

#[test]
fn unary_operators() {
    assert_eq!(as_f64(&UnaryOperator::Neg.call(num(2.5)).unwrap()), -2.5);
    assert_eq!(as_f64(&UnaryOperator::Neg.call(num(-2.5)).unwrap()), 2.5);
    assert_eq!(as_f64(&UnaryOperator::Not.call(num(0.0)).unwrap()), 1.0);
    assert_eq!(as_f64(&UnaryOperator::Not.call(num(0.5)).unwrap()), 0.0);
    assert_eq!(as_f64(&UnaryOperator::Complement.call(num(5.0)).unwrap()), -6.0);
    assert_eq!(as_f64(&UnaryOperator::Complement.call(num(-1.0)).unwrap()), 0.0);
}

#[test]
fn unary_operators_refuse_strings() {
    assert!(matches!(
        UnaryOperator::Neg.call(text("a")),
        Err(Error::InvalidOperandsUnary(Operator::Subtract, _))
    ));
    assert!(matches!(
        UnaryOperator::Not.call(text("a")),
        Err(Error::InvalidOperandsUnary(Operator::Not, _))
    ));
    assert!(matches!(
        UnaryOperator::Complement.call(text("a")),
        Err(Error::InvalidOperandsUnary(Operator::Complement, _))
    ));
}

#[test]
fn rounding_is_to_nearest_with_ties_to_even() {
    assert_eq!(num(2.6).round(), 3);
    assert_eq!(num(2.4).round(), 2);
    assert_eq!(num(2.5).round(), 2);
    assert_eq!(num(3.5).round(), 4);
    assert_eq!(num(-2.5).round(), -2);
    assert_eq!(num(-2.6).round(), -3);
    assert_eq!(num(0.0).round(), 0);
    assert_eq!(num(31999.0).round(), 31999);
    assert_eq!(num(1e20).round(), i32::MAX);
    assert_eq!(num(-1e20).round(), i32::MIN);
    assert_eq!(num(f64::NAN).round(), 0);
    assert_eq!(text("12").round(), 0);
}

#[test]
fn truthiness_starts_at_one_half() {
    assert!(num(0.5).is_truthy());
    assert!(num(1.0).is_truthy());
    assert!(num(1e300).is_truthy());
    assert!(!num(0.49999).is_truthy());
    assert!(!num(0.0).is_truthy());
    assert!(!num(-1.0).is_truthy());
    assert!(!num(f64::NAN).is_truthy());
    assert!(!text("true").is_truthy());
}

#[test]
fn conversions_between_values_and_plain_types() {
    assert_eq!(as_f64(&Value::from_bool(true)), 1.0);
    assert_eq!(as_f64(&Value::from_bool(false)), 0.0);
    assert_eq!(as_f64(&Value::from_i32(-7)), -7.0);
    assert_eq!(as_f64(&Value::from_i32(i32::MIN)), i32::MIN as f64);
    assert_eq!(as_f64(&Value::from_u32(u32::MAX)), u32::MAX as f64);
    assert_eq!(as_f64(&Value::from_usize(123456)), 123456.0);
    assert_eq!(as_f64(&Value::zero()), 0.0);
    assert_eq!(text("abc").to_bytes(), b"abc".to_vec());
    assert_eq!(num(4.0).to_bytes(), Vec::<u8>::new());
    assert_eq!(f64::from_bits(text("abc").to_real().to_bits()), 0.0);
    assert_eq!(num(7.4).to_i32(), 7);
    assert_eq!(num(1.0).ty_str(), "real");
    assert_eq!(text("").ty_str(), "string");
}

#[test]
fn duplicate_copies_the_value() {
    assert_eq!(as_f64(&num(2.5).duplicate()), 2.5);
    assert_eq!(as_text(&text("abc").clone()), b"abc".to_vec());
}

#[test]
fn almost_equals_never_crosses_types() {
    assert!(num(1.0).almost_equals(&num(1.0 + 1e-14)));
    assert!(!num(1.0).almost_equals(&num(1.1)));
    assert!(text("a").almost_equals(&text("a")));
    assert!(!text("a").almost_equals(&text("b")));
    assert!(!text("1").almost_equals(&num(1.0)));
    assert!(!num(0.0).almost_equals(&text("")));
}

#[test]
fn numbers_floor_truncate_and_clamp() {
    let r = |x: f64| Real::from_bits(x.to_bits());
    let f = |x: Real| f64::from_bits(x.to_bits());
    assert_eq!(f(r(2.7).trunc()), 2.0);
    assert_eq!(f(r(-2.7).trunc()), -2.0);
    assert_eq!(f(r(1.5).clamp_to_unit()), 1.0);
    assert_eq!(f(r(-0.5).clamp_to_unit()), 0.0);
    assert_eq!(f(r(0.25).clamp_to_unit()), 0.25);
    assert_eq!(f(r(2.0).neg()), -2.0);
    assert!(r(1.0).is_at_most(r(1.0)));
    assert!(r(-1.0).is_at_most(r(1.0)));
    assert!(!r(2.0).is_at_most(r(1.0)));
    assert!(r(-0.0).is_at_most(r(0.0)));
    assert!(r(0.0).is_at_most(r(-0.0)));
    assert!(!r(0.0).is_less(r(-0.0)));
    assert!(r(0.0).is_non_negative());
    assert!(r(-0.0).is_non_negative());
    assert!(!r(-1.0).is_non_negative());
    assert!(r(f64::NAN).check_nan());
    assert!(!r(f64::INFINITY).check_nan());
    assert!(r(-0.0).check_zero());
}

#[test]
fn number_text_is_decimal() {
    let r = |x: f64| Real::from_bits(x.to_bits());
    assert_eq!(r(3.5).text(), "3.5");
    assert_eq!(r(-2.0).text(), "-2");
    assert_eq!(r(0.0).text(), "0");
}

#[test]
fn integers_become_the_numbers_that_they_are() {
    let f = |x: Real| f64::from_bits(x.to_bits());
    for n in [0, 1, -1, 2, 3, 7, -8, 255, 256, 100000, 31999, 32000, i32::MAX, i32::MIN, i32::MIN + 1] {
        assert_eq!(f(Real::from_i32(n)), n as f64, "{}", n);
        assert_eq!(Real::from_i32(n).to_bits(), (n as f64).to_bits(), "{}", n);
        assert_eq!(Real::from_i32(n).round(), n);
    }
    for n in [0u32, 1, 2147483648, u32::MAX] {
        assert_eq!(Real::from_u32(n).to_bits(), (n as f64).to_bits(), "{}", n);
    }
    for n in [0usize, 5, (1 << 53) - 1, 1 << 53, (1 << 53) + 1, (1 << 60) + 12345, usize::MAX] {
        assert_eq!(Real::from_usize(n).to_bits(), (n as f64).to_bits(), "{}", n);
    }
    assert_eq!(Real::from_magnitude(true, 12).to_bits(), (-12.0f64).to_bits());
    assert_eq!(Real::from_magnitude(true, 0).to_bits(), (0.0f64).to_bits());
}

#[test]
fn rounding_agrees_with_the_float_unit() {
    let samples = [
        0.0,
        -0.0,
        0.25,
        0.5,
        0.75,
        1.5,
        2.5,
        -0.5,
        -1.5,
        0.49999999999999994,
        0.5000000000000001,
        1e-320,
        -1e-320,
        4503599627370495.5,
        2147483646.5,
        2147483647.4,
        2147483647.5,
        -2147483648.5,
        -2147483649.0,
        9007199254740993.0,
        1e300,
        -1e300,
        f64::INFINITY,
        f64::NEG_INFINITY,
        f64::MIN_POSITIVE,
        123456.789,
        -98765.4321,
    ];
    for x in samples {
        let expected = x.round_ties_even() as i32;
        assert_eq!(Real::from_bits(x.to_bits()).round(), expected, "{}", x);
    }
    let mut x = 0.1f64;
    for _ in 0..2000 {
        assert_eq!(Real::from_bits(x.to_bits()).round(), x.round_ties_even() as i32, "{}", x);
        assert_eq!(Real::from_bits((-x).to_bits()).round(), (-x).round_ties_even() as i32, "-{}", x);
        x = x * 1.0173 + 0.37;
    }
}

#[test]
fn truncation_agrees_with_the_float_unit() {
    let samples = [
        0.0,
        -0.0,
        0.25,
        -0.75,
        0.9999999999999999,
        1.0,
        1.5,
        -1.5,
        2.9999999999999996,
        4503599627370495.5,
        -4503599627370495.5,
        4503599627370496.0,
        9007199254740993.0,
        1e300,
        f64::INFINITY,
        f64::NEG_INFINITY,
        f64::MIN_POSITIVE,
        1e-320,
        123456.789,
        -98765.4321,
    ];
    for x in samples {
        let t = Real::from_bits(x.to_bits()).trunc();
        assert_eq!(t.to_bits(), x.trunc().to_bits(), "{}", x);
    }
    assert!(Real::from_bits(f64::NAN.to_bits()).trunc().check_nan());
    let mut x = 0.1f64;
    for _ in 0..2000 {
        assert_eq!(Real::from_bits(x.to_bits()).trunc().to_bits(), x.trunc().to_bits(), "{}", x);
        assert_eq!(Real::from_bits((-x).to_bits()).trunc().to_bits(), (-x).trunc().to_bits());
        x = x * 1.0173 + 0.37;
    }
}
