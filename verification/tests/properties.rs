//! Cross-cutting behaviour: idempotent rendering, unconditional
//! parenthesization, rejection anywhere in a tree, formatting boundaries.

use kaitai_expr::ast::utils::{InvalidFloatError, PositiveFiniteF64};
use kaitai_expr::ast::{BinaryOp, Expr, UnaryOp};
use kaitai_expr::numerals::{
    hex_float_repr, should_format_float_with_exponent, u64_to_decimal, u64_to_hex,
};
use kaitai_expr::translator::{is_renderable, translate, try_translate};

fn pf(value: f64) -> PositiveFiniteF64 {
    PositiveFiniteF64::from_bits(value.to_bits()).unwrap()
}

#[test]
fn rendering_is_idempotent() {
    let expr = Expr::BinaryOp {
        l: Box::new(Expr::Float(pf(0.5))),
        op: BinaryOp::Add,
        r: Box::new(Expr::List(vec![Expr::Int(7), Expr::Name("x".to_string())])),
    };
    let first = translate(&expr);
    for _ in 0..5 {
        assert_eq!(translate(&expr), first);
    }
}

#[test]
fn parentheses_are_unconditional() {
    let unary = Expr::UnaryOp {
        op: UnaryOp::Neg,
        v: Box::new(Expr::Int(1)),
    };
    let binary = Expr::BinaryOp {
        l: Box::new(Expr::Int(1)),
        op: BinaryOp::Add,
        r: Box::new(unary),
    };
    let cond = Expr::CondOp {
        cond: Box::new(Expr::Bool(true)),
        if_true: Box::new(binary),
        if_false: Box::new(Expr::Int(0)),
    };
    let rendered = translate(&cond);
    assert_eq!(rendered, "(true ? (1 + (-1)) : 0)");
    for e in [
        Expr::UnaryOp {
            op: UnaryOp::Not,
            v: Box::new(Expr::Bool(true)),
        },
        Expr::BinaryOp {
            l: Box::new(Expr::Int(1)),
            op: BinaryOp::Mul,
            r: Box::new(Expr::Int(2)),
        },
        Expr::CondOp {
            cond: Box::new(Expr::Bool(false)),
            if_true: Box::new(Expr::Int(1)),
            if_false: Box::new(Expr::Int(2)),
        },
    ] {
        let s = translate(&e);
        assert!(s.starts_with('('));
        assert!(s.ends_with(')'));
    }
}

#[test]
fn single_quote_rejected_deep_in_tree() {
    let expr = Expr::List(vec![
        Expr::Int(1),
        Expr::MethodCall {
            value: Box::new(Expr::Name("a".to_string())),
            method_name: "m".to_string(),
            args: vec![Expr::Str("it's".to_string())],
        },
    ]);
    assert!(!is_renderable(&expr));
    assert_eq!(try_translate(&expr), None);
}

#[test]
fn renderable_tree_translates_checked() {
    let expr = Expr::Str("its".to_string());
    assert!(is_renderable(&expr));
    assert_eq!(try_translate(&expr), Some("'its'".to_string()));
}

#[test]
fn empty_list_renders_as_brackets() {
    assert_eq!(translate(&Expr::List(vec![])), "[]");
}

#[test]
fn enum_member_without_path() {
    let expr = Expr::EnumMember {
        enum_path: vec![],
        label: "lone".to_string(),
    };
    assert_eq!(translate(&expr), "lone");
}

#[test]
fn method_call_without_args() {
    let expr = Expr::MethodCall {
        value: Box::new(Expr::Name("obj".to_string())),
        method_name: "run".to_string(),
        args: vec![],
    };
    assert_eq!(translate(&expr), "obj.run()");
}

#[test]
fn int_zero_and_round_numbers() {
    assert_eq!(translate(&Expr::Int(0)), "0");
    assert_eq!(translate(&Expr::Int(10)), "10");
    assert_eq!(translate(&Expr::Int(1000000)), "1000000");
}

#[test]
fn decimal_digit_strings() {
    assert_eq!(u64_to_decimal(0), "0");
    assert_eq!(u64_to_decimal(9), "9");
    assert_eq!(u64_to_decimal(1074), "1074");
    assert_eq!(u64_to_decimal(u64::MAX), "18446744073709551615");
}

#[test]
fn hex_digit_strings() {
    assert_eq!(u64_to_hex(0), "0");
    assert_eq!(u64_to_hex(10), "a");
    assert_eq!(u64_to_hex(0x1F), "1f");
    assert_eq!(u64_to_hex(0x10_0000_0000_0000), "10000000000000");
}

#[test]
fn hex_float_literals_denote_the_double() {
    // The literal denotes the double exactly: significand times a power of two.
    assert_eq!(hex_float_repr(1.0f64.to_bits()), "0x10000000000000p-52");
    assert_eq!(hex_float_repr(0.0f64.to_bits()), "0x0p-1074");
    assert_eq!(hex_float_repr(5e-324f64.to_bits()), "0x1p-1074");
    assert_eq!(hex_float_repr(f64::MAX.to_bits()), "0x1fffffffffffffp971");
}

#[test]
fn exponent_policy_boundaries() {
    assert!(!should_format_float_with_exponent(0.0f64.to_bits()));
    assert!(!should_format_float_with_exponent(0.0001f64.to_bits()));
    assert!(should_format_float_with_exponent(
        0.00009999999999999999f64.to_bits()
    ));
    assert!(!should_format_float_with_exponent(
        9999999999999998.0f64.to_bits()
    ));
    assert!(should_format_float_with_exponent(1e16f64.to_bits()));
    assert!(should_format_float_with_exponent(5e-324f64.to_bits()));
    assert!(should_format_float_with_exponent(f64::MAX.to_bits()));
}

#[test]
fn construction_error_variants() {
    assert_eq!(
        PositiveFiniteF64::from_bits(f64::NAN.to_bits()),
        Err(InvalidFloatError::NonFinite)
    );
    assert_eq!(
        PositiveFiniteF64::from_bits(f64::INFINITY.to_bits()),
        Err(InvalidFloatError::NonFinite)
    );
    assert_eq!(
        PositiveFiniteF64::from_bits((-0.0f64).to_bits()),
        Err(InvalidFloatError::Negative)
    );
    assert!(PositiveFiniteF64::from_bits(0.0f64.to_bits()).is_ok());
}

#[test]
fn constrained_floats_order_and_compare_by_value() {
    let a = pf(0.0);
    let b = pf(1.5);
    let c = pf(1.5);
    let d = pf(f64::MAX);
    assert_eq!(b, c);
    assert!(a < b);
    assert!(b < d);
    let mut v = [d, b, a];
    v.sort();
    assert_eq!(v, [a, b, d]);
}
