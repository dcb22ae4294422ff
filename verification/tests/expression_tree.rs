use nes_rust_client::expression::binary_expression::{BinaryOp, BinaryOpType};
use nes_rust_client::expression::expression::RawExpr;
use nes_rust_client::expression::literal::Literal;
use nes_rust_client::expression::unary_expression::UnaryOp;
use nes_rust_client::expression::{ExprBuilder, Field, LogicalExpr};
use nes_rust_client::query::stringify::stringify_expr;
use nes_rust_client::types::{FloatType, IntType, NesType};

fn vec_eq(this: &Vec<RawExpr>, other: &Vec<RawExpr>) {
    assert_eq!(this.len(), other.len());
    for expr in this {
        assert!(
            other.contains(expr),
            "other does not contain {}",
            stringify_expr(expr)
        );
    }
}

fn common_values() -> (Vec<RawExpr>, Vec<RawExpr>) {
    let field0: RawExpr = Field::untyped("field0").into();
    let field1: RawExpr = Field::untyped("field1").into();
    let field2: RawExpr = Field::untyped("field2").into();
    let field3: RawExpr = Field::untyped("field3").into();
    let expr0 = RawExpr::binary(
        field0.clone(),
        field1.clone(),
        BinaryOp::And,
        NesType::Undefined,
    );
    let expr1 = RawExpr::binary(field2.clone(), field3.clone(), BinaryOp::Or, NesType::Bool);
    let expr2 = RawExpr::binary(expr0.clone(), expr1.clone(), BinaryOp::Or, NesType::Bool);
    let expr3 = RawExpr::binary(expr0.clone(), field0.clone(), BinaryOp::And, NesType::Bool);
    (
        vec![field0, field1, field2, field3],
        vec![expr0, expr1, expr2, expr3],
    )
}

#[test]
fn test_leafs() {
    let (fields, exprs) = common_values();
    let expected_leafs0 = vec![fields[0].clone(), fields[1].clone()];
    let expected_leafs1 = vec![fields[2].clone(), fields[3].clone()];
    let expected_leafs2 = vec![
        fields[0].clone(),
        fields[1].clone(),
        fields[2].clone(),
        fields[3].clone(),
    ];
    let expected_leafs3 = vec![fields[0].clone(), fields[1].clone(), fields[0].clone()];

    vec_eq(&expected_leafs0, &exprs[0].leafs());
    vec_eq(&expected_leafs1, &exprs[1].leafs());
    vec_eq(&expected_leafs2, &exprs[2].leafs());
    vec_eq(&expected_leafs3, &exprs[3].leafs());
}

#[test]
fn test_leaf_parents() {
    let (_, exprs) = common_values();
    let expected0 = vec![exprs[0].clone()];
    let expected1 = vec![exprs[1].clone()];
    let expected2 = vec![exprs[0].clone(), exprs[1].clone()];
    let expected3 = vec![exprs[0].clone(), exprs[3].clone()];
    vec_eq(&expected0, &exprs[0].leaf_parents());
    vec_eq(&expected1, &exprs[1].leaf_parents());
    vec_eq(&expected2, &exprs[2].leaf_parents());
    vec_eq(&expected3, &exprs[3].leaf_parents());
}

#[test]
fn leafs_come_from_left_to_right() {
    let (fields, exprs) = common_values();
    // `binary` takes the right operand first.
    assert_eq!(exprs[0].leafs(), vec![fields[1].clone(), fields[0].clone()]);
    assert_eq!(
        exprs[3].leafs(),
        vec![fields[0].clone(), fields[1].clone(), fields[0].clone()]
    );
    assert_eq!(exprs[3].leaf_parents(), vec![exprs[3].clone(), exprs[0].clone()]);
    assert!(fields[0].leaf_parents().is_empty());
    assert_eq!(fields[0].leafs(), vec![fields[0].clone()]);
}

#[test]
fn try_resolve_unifies_types() {
    let all = [
        NesType::Undefined,
        NesType::Bool,
        NesType::Char,
        NesType::Int(IntType::Signed8),
        NesType::Int(IntType::Unsigned8),
        NesType::Int(IntType::Signed16),
        NesType::Int(IntType::Unsigned16),
        NesType::Int(IntType::Signed32),
        NesType::Int(IntType::Unsigned32),
        NesType::Int(IntType::Signed64),
        NesType::Int(IntType::Unsigned64),
        NesType::Float(FloatType::Bit32),
        NesType::Float(FloatType::Bit64),
    ];
    for a in all {
        assert_eq!(NesType::try_resolve(a, a), Some(a));
        assert_eq!(NesType::try_resolve(NesType::Undefined, a), Some(a));
        assert_eq!(NesType::try_resolve(a, NesType::Undefined), Some(a));
        for b in all {
            assert_eq!(NesType::try_resolve(a, b), NesType::try_resolve(b, a));
            if a != b && a != NesType::Undefined && b != NesType::Undefined {
                assert_eq!(NesType::try_resolve(a, b), None);
            }
        }
    }
    assert_eq!(
        NesType::try_resolve(NesType::Undefined, NesType::Undefined),
        Some(NesType::Undefined)
    );
    assert_eq!(
        NesType::try_resolve(NesType::Int(IntType::Signed32), NesType::Int(IntType::Signed64)),
        None
    );
    assert!(NesType::Int(IntType::Unsigned16).is_numeric());
    assert!(NesType::Float(FloatType::Bit64).is_numeric());
    assert!(!NesType::Bool.is_numeric());
    assert!(!NesType::Undefined.is_numeric());
    assert!(!NesType::Char.is_numeric());
}

#[test]
fn literals_hold_the_text_of_their_value() {
    let zero: Literal = 0.into();
    assert_eq!(zero.value(), "0");
    assert_eq!(zero.data_type(), NesType::Int(IntType::Signed32));
    let least: Literal = i32::MIN.into();
    assert_eq!(least.value(), "-2147483648");
    let big: Literal = 9223372036854775807i64.into();
    assert_eq!(big.value(), "9223372036854775807");
    assert_eq!(big.data_type(), NesType::Int(IntType::Signed64));
    let small: Literal = i64::MIN.into();
    assert_eq!(small.value(), "-9223372036854775808");
    let minus: Literal = (-10i64).into();
    assert_eq!(minus.value(), "-10");
    let yes: Literal = true.into();
    assert_eq!(yes.value(), "true");
    assert_eq!(yes.data_type(), NesType::Bool);
    let no: Literal = false.into();
    assert_eq!(no.value(), "false");
    let typed = Literal::typed("1.5", NesType::Float(FloatType::Bit32));
    assert_eq!(typed.value(), "1.5");
    assert_eq!(typed.data_type(), NesType::Float(FloatType::Bit32));
    assert_eq!(typed.clone(), typed);
}

#[test]
fn fields_keep_name_type_and_new_name() {
    let field = Field::untyped("speed");
    assert_eq!(field.name(), "speed");
    assert_eq!(field.projected_name(), None);
    assert_eq!(field.data_type(), NesType::Undefined);
    let typed = Field::typed(String::from("speed"), NesType::Int(IntType::Unsigned8));
    assert_eq!(typed.data_type(), NesType::Int(IntType::Unsigned8));
    let renamed = typed.clone().rename("velocity");
    assert_eq!(renamed.name(), "speed");
    assert_eq!(renamed.projected_name(), Some("velocity"));
    assert_eq!(renamed.data_type(), NesType::Int(IntType::Unsigned8));
    let again = renamed.rename("v");
    assert_eq!(again.projected_name(), Some("v"));
    let from_str: Field = "speed".into();
    assert_eq!(from_str, field);
    let from_string: Field = String::from("speed").into();
    assert_eq!(from_string, field);
}

#[test]
fn operators_know_their_family() {
    assert!(UnaryOp::Negate.is_logical());
    assert!(!UnaryOp::Absolute.is_logical());
    for op in [BinaryOp::And, BinaryOp::Or] {
        assert!(op.is_logical());
        assert_eq!(op.get_op_type(), BinaryOpType::Logical);
    }
    for op in [
        BinaryOp::Equals,
        BinaryOp::Greater,
        BinaryOp::GreaterEquals,
        BinaryOp::Less,
        BinaryOp::LessEquals,
    ] {
        assert!(op.is_logical());
        assert_eq!(op.get_op_type(), BinaryOpType::Relational);
    }
    for op in [
        BinaryOp::Add,
        BinaryOp::Sub,
        BinaryOp::Multiply,
        BinaryOp::Divide,
        BinaryOp::Remainder,
        BinaryOp::Power,
    ] {
        assert!(!op.is_logical());
        assert_eq!(op.get_op_type(), BinaryOpType::Arithmetic);
    }
}

#[test]
fn raw_expr_constructors_and_kinds() {
    let field: RawExpr = Field::untyped("a").into();
    let literal: RawExpr = Literal::from(1).into();
    assert!(field.is_field() && field.is_leaf() && !field.is_literal());
    assert!(literal.is_literal() && literal.is_leaf() && !literal.is_field());
    let unary = RawExpr::unary(literal.clone(), UnaryOp::Absolute, NesType::Int(IntType::Signed32));
    assert!(!unary.is_leaf() && !unary.is_field() && !unary.is_literal());
    assert_eq!(unary.data_type(), NesType::Int(IntType::Signed32));
    let binary = RawExpr::binary(literal.clone(), field.clone(), BinaryOp::Add, NesType::Undefined);
    assert_eq!(binary.data_type(), NesType::Undefined);
    match &binary {
        RawExpr::Binary(b) => {
            assert_eq!(*b.lhs, field);
            assert_eq!(*b.rhs, literal);
            assert_eq!(b.operator, BinaryOp::Add);
            assert_eq!(b.data_type(), NesType::Undefined);
        }
        _ => panic!("a binary expression was built"),
    }
    match &unary {
        RawExpr::Unary(u) => {
            assert_eq!(*u.expr, literal);
            assert_eq!(u.data_type(), NesType::Int(IntType::Signed32));
        }
        _ => panic!("a unary expression was built"),
    }
    assert_eq!(field.data_type(), NesType::Undefined);
    assert_eq!(literal.data_type(), NesType::Int(IntType::Signed32));
}

#[test]
fn recorded_types_follow_the_rules() {
    let expr = ExprBuilder::typed_field("a", NesType::Int(IntType::Signed32))
        .less_than(ExprBuilder::literal(10))
        .and(ExprBuilder::field("flag").not())
        .or(ExprBuilder::literal(true))
        .build_logical()
        .unwrap();
    fn check(expr: &RawExpr) {
        match expr {
            RawExpr::Unary(u) => {
                check(&u.expr);
                assert_eq!(u.data_type, NesType::Bool);
            }
            RawExpr::Binary(b) => {
                check(&b.lhs);
                check(&b.rhs);
                assert_eq!(b.data_type, NesType::Bool);
            }
            _ => {}
        }
    }
    check(&expr.0);
    assert_eq!(expr.0.data_type(), NesType::Bool);
}

#[test]
fn a_failed_step_is_reported_at_the_end() {
    // The mismatch sits in the right operand of a step that by itself fits.
    let inner = ExprBuilder::literal(0).not();
    assert!(ExprBuilder::literal(true).and(inner).build_logical().is_err());
    // Steps after a failure do not mend it.
    assert!(ExprBuilder::literal(0)
        .and(ExprBuilder::literal(true))
        .equals(ExprBuilder::field("x"))
        .build_logical()
        .is_err());
    assert!(ExprBuilder::literal(0).not().build_arith().is_err());
    assert!(ExprBuilder::typed_field("x", NesType::Char).build_arith().is_err());
    assert!(ExprBuilder::typed_field("x", NesType::Char).build_logical().is_err());
    assert!(ExprBuilder::typed_field("x", NesType::Float(FloatType::Bit64)).build_arith().is_ok());
    assert!(ExprBuilder::typed_field("x", NesType::Int(IntType::Unsigned8)).build_arith().is_ok());
    assert!(ExprBuilder::typed_field("x", NesType::Bool).build_logical().is_ok());
    assert!(ExprBuilder::literal(1i64).greater_than(ExprBuilder::literal(2i64)).build_logical().is_ok());
    assert!(ExprBuilder::literal(1i64).greater_than(ExprBuilder::literal(2i32)).build_logical().is_err());
    assert!(ExprBuilder::literal(1).greater_equals(ExprBuilder::literal(2)).build_logical().is_ok());
    assert!(ExprBuilder::literal(1).less_equals(ExprBuilder::literal(true)).build_logical().is_err());
    assert!(ExprBuilder::literal(1).less_than(ExprBuilder::field("x")).build_arith().is_err());
}

#[test]
fn logical_expressions_can_be_negated() {
    let expr = ExprBuilder::literal(true).build_logical().unwrap();
    let negated = expr.clone().not();
    assert_eq!(
        negated,
        LogicalExpr(RawExpr::unary(expr.0, UnaryOp::Negate, NesType::Bool))
    );
}

#[test]
fn recorded_type_equals_computed_type() {
    let built = [
        ExprBuilder::literal(true).not(),
        ExprBuilder::field("a").equals(ExprBuilder::literal(1)),
        ExprBuilder::typed_field("a", NesType::Int(IntType::Signed64))
            .greater_than(ExprBuilder::literal(1i64))
            .and(ExprBuilder::field("b").or(ExprBuilder::literal(false))),
        ExprBuilder::literal(1).and(ExprBuilder::literal(2)),
        ExprBuilder::literal(1).equals(ExprBuilder::literal(true)).not(),
    ];
    for builder in built {
        // The expression is reached through a finished builder or not at all.
        if let Ok(expr) = builder.build_logical() {
            assert_eq!(expr.0.data_type(), expr.0.computed_type());
            assert_eq!(expr.0.data_type(), NesType::Bool);
            for parent in expr.0.leaf_parents() {
                assert_eq!(parent.data_type(), parent.computed_type());
            }
        }
    }
    let sum = RawExpr::binary(
        Literal::from(1).into(),
        Field::typed("a", NesType::Int(IntType::Signed32)).into(),
        BinaryOp::Add,
        NesType::Int(IntType::Signed32),
    );
    assert_eq!(sum.computed_type(), NesType::Int(IntType::Signed32));
    let drifted = RawExpr::binary(
        Literal::from(1).into(),
        Field::typed("a", NesType::Int(IntType::Signed32)).into(),
        BinaryOp::Add,
        NesType::Bool,
    );
    assert_ne!(drifted.data_type(), drifted.computed_type());
    let mixed = RawExpr::binary(
        Literal::from(true).into(),
        Literal::from(1).into(),
        BinaryOp::Multiply,
        NesType::Undefined,
    );
    assert_eq!(mixed.computed_type(), NesType::Undefined);
    let magnitude = RawExpr::unary(
        Literal::from(-1i64).into(),
        UnaryOp::Absolute,
        NesType::Int(IntType::Signed64),
    );
    assert_eq!(magnitude.computed_type(), NesType::Int(IntType::Signed64));
    let bad_magnitude = RawExpr::unary(Literal::from(true).into(), UnaryOp::Absolute, NesType::Bool);
    assert_eq!(bad_magnitude.computed_type(), NesType::Undefined);
}
