use nes_rust_client::expression::binary_expression::{BinaryExpr, BinaryOp};
use nes_rust_client::expression::expression::RawExpr as RE;
use nes_rust_client::expression::field::Field;
use nes_rust_client::expression::unary_expression::{UnaryExpr, UnaryOp};
use nes_rust_client::expression::{ArithmeticExpr, ExprBuilder as EB, LogicalExpr};
use nes_rust_client::types::NesType;

#[test]
fn logical_literal_test() {
    let expr = EB::literal(true).build_logical().unwrap();
    let expected = LogicalExpr(RE::Literal(true.into()));
    assert_eq!(expected, expr);
    assert!(EB::literal(0).build_logical().is_err());
    assert!(EB::field("value").build_logical().is_err());
}

#[test]
fn arith_literal_test() {
    let expr = EB::literal(0).build_arith().unwrap();
    let expected = ArithmeticExpr(RE::Literal(0.into()));
    assert_eq!(expected, expr);
    assert!(EB::literal(true).build_arith().is_err());
    assert!(EB::field("value").build_arith().is_err());
}

#[test]
fn negate_test() {
    let expr = EB::literal(true).not().build_logical().unwrap();
    let expected = LogicalExpr(RE::Unary(UnaryExpr {
        expr: Box::new(RE::Literal(true.into())),
        operator: UnaryOp::Negate,
        data_type: NesType::Bool,
    }));
    assert_eq!(expected, expr);
    let expr = EB::field("value").not().build_logical().unwrap();
    let expected = LogicalExpr(RE::Unary(UnaryExpr {
        expr: Box::new(RE::Field(Field::untyped("value"))),
        operator: UnaryOp::Negate,
        data_type: NesType::Bool,
    }));
    assert_eq!(expected, expr);
    assert!(EB::literal(0).not().build_logical().is_err());
}

#[test]
fn eq_test() {
    let expr = EB::literal(0)
        .equals(EB::literal(2))
        .build_logical()
        .unwrap();
    let expected = LogicalExpr(RE::Binary(BinaryExpr {
        lhs: Box::new(RE::Literal(0.into())),
        rhs: Box::new(RE::Literal(2.into())),
        operator: BinaryOp::Equals,
        data_type: NesType::Bool,
    }));
    assert_eq!(expected, expr);
    assert!(EB::literal(0)
        .equals(EB::literal(true))
        .build_logical()
        .is_err());
    assert!(EB::literal(0)
        .equals(EB::field("value"))
        .build_logical()
        .is_ok());
}

#[test]
fn and_test() {
    let expr = EB::literal(true)
        .and(EB::literal(false))
        .build_logical()
        .unwrap();
    let expected = LogicalExpr(RE::Binary(BinaryExpr {
        lhs: Box::new(RE::Literal(true.into())),
        rhs: Box::new(RE::Literal(false.into())),
        operator: BinaryOp::And,
        data_type: NesType::Bool,
    }));
    assert_eq!(expected, expr);
    assert!(EB::literal(0).and(EB::literal(0)).build_logical().is_err());
    assert!(EB::literal(0)
        .and(EB::field("value"))
        .build_logical()
        .is_err());
    assert!(EB::literal(true)
        .and(EB::field("value"))
        .build_logical()
        .is_ok());
}

#[test]
fn or_test() {
    let expr = EB::literal(true)
        .or(EB::literal(false))
        .build_logical()
        .unwrap();
    let expected = LogicalExpr(RE::Binary(BinaryExpr {
        lhs: Box::new(RE::Literal(true.into())),
        rhs: Box::new(RE::Literal(false.into())),
        operator: BinaryOp::Or,
        data_type: NesType::Bool,
    }));
    assert_eq!(expected, expr);
    assert!(EB::literal(0).or(EB::literal(0)).build_logical().is_err());
    assert!(EB::literal(0)
        .or(EB::field("value"))
        .build_logical()
        .is_err());
    assert!(EB::literal(true)
        .or(EB::field("value"))
        .build_logical()
        .is_ok());
}

#[test]
fn macro_test() {
    let expr0 = EB::field("user_id")
        .greater_equals(EB::literal(1))
        .and(EB::field("user_id").less_than(EB::literal(10000)))
        .build_logical()
        .unwrap();
    let expected = LogicalExpr(RE::Binary(BinaryExpr {
        lhs: Box::new(RE::Binary(BinaryExpr {
            lhs: Box::new(RE::Field(Field::untyped("user_id"))),
            rhs: Box::new(RE::Literal(1.into())),
            operator: BinaryOp::GreaterEquals,
            data_type: NesType::Bool,
        })),
        rhs: Box::new(RE::Binary(BinaryExpr {
            lhs: Box::new(RE::Field(Field::untyped("user_id"))),
            rhs: Box::new(RE::Literal(10000.into())),
            operator: BinaryOp::Less,
            data_type: NesType::Bool,
        })),
        operator: BinaryOp::And,
        data_type: NesType::Bool,
    }));
    assert_eq!(expected, expr0);
}

#[test]
fn an_integer_literal_is_no_logical_expression() {
    assert!(EB::literal(0).build_logical().is_err());
    let built = EB::literal(true).build_logical().unwrap();
    assert_eq!(built.0.data_type(), NesType::Bool);
}

#[test]
fn an_undefined_field_unifies_with_an_integer() {
    let built = EB::field("x").equals(EB::literal(2)).build_logical().unwrap();
    assert_eq!(built.0.data_type(), NesType::Bool);
    assert_eq!(
        built,
        LogicalExpr(RE::Binary(BinaryExpr {
            lhs: Box::new(RE::Field(Field::untyped("x"))),
            rhs: Box::new(RE::Literal(2.into())),
            operator: BinaryOp::Equals,
            data_type: NesType::Bool,
        }))
    );
    assert!(EB::literal(0).equals(EB::literal(true)).build_logical().is_err());
}
