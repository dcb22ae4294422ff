use nes_rust_client::expression::binary_expression::BinaryOp;
use nes_rust_client::expression::expression::RawExpr;
use nes_rust_client::expression::literal::Literal;
use nes_rust_client::expression::Field;
use nes_rust_client::query::expr_gen::{
    any_field_of_type, binary_ops_returning, generate_logical_expr, generate_raw_expr, leaf_from,
};
use nes_rust_client::types::{FloatType, IntType, NesType};

fn fields() -> Vec<Field> {
    vec![
        Field::typed("flag", NesType::Bool),
        Field::typed("count", NesType::Int(IntType::Signed32)),
        Field::typed("ratio", NesType::Float(FloatType::Bit64)),
        Field::typed("letter", NesType::Char),
    ]
}

fn depth_of(expr: &RawExpr) -> Option<u32> {
    match expr {
        RawExpr::Literal(_) | RawExpr::Field(_) => Some(0),
        RawExpr::Unary(_) => None,
        RawExpr::Binary(b) => {
            let l = depth_of(&b.lhs)?;
            let r = depth_of(&b.rhs)?;
            if l == r {
                Some(l + 1)
            } else {
                None
            }
        }
    }
}

fn check_types(expr: &RawExpr, fields: &[Field]) {
    match expr {
        RawExpr::Literal(literal) => match literal.data_type() {
            NesType::Bool => assert!(literal.value() == "true" || literal.value() == "false"),
            NesType::Int(IntType::Signed32) => {
                assert!(literal.value().parse::<i32>().is_ok(), "{}", literal.value())
            }
            NesType::Int(IntType::Unsigned8) => {
                assert!(literal.value().parse::<u8>().is_ok(), "{}", literal.value())
            }
            NesType::Int(IntType::Signed64) => {
                assert!(literal.value().parse::<i64>().is_ok(), "{}", literal.value())
            }
            NesType::Float(_) => {
                let value = literal.value().parse::<f64>().unwrap();
                assert!((0.0..1.0).contains(&value), "{}", literal.value());
            }
            other => panic!("no constant of type {:?} is generated", other),
        },
        RawExpr::Field(field) => assert!(fields.contains(field)),
        RawExpr::Unary(_) => panic!("no operator with one operand is generated"),
        RawExpr::Binary(b) => {
            check_types(&b.lhs, fields);
            check_types(&b.rhs, fields);
            let unified = NesType::try_resolve(b.lhs.data_type(), b.rhs.data_type());
            assert_eq!(unified, Some(b.lhs.data_type()));
            assert_ne!(b.lhs.data_type(), NesType::Undefined);
            if b.operator.is_logical() {
                assert_eq!(b.data_type, NesType::Bool);
            } else {
                assert_eq!(b.data_type, b.lhs.data_type());
                assert!(b.data_type.is_numeric());
            }
            if matches!(b.operator, BinaryOp::And | BinaryOp::Or) {
                assert_eq!(b.lhs.data_type(), NesType::Bool);
            } else {
                assert!(b.lhs.data_type().is_numeric());
            }
        }
    }
}

#[test]
fn generated_expressions_have_depth_and_type() {
    let fields = fields();
    for depth in 0..4 {
        for _ in 0..25 {
            let logical = match generate_logical_expr(depth, &fields) {
                Ok(logical) => logical,
                Err(error) => panic!("{}", error.to_string()),
            };
            assert_eq!(depth_of(&logical.0), Some(depth));
            assert_eq!(logical.0.data_type(), NesType::Bool);
            check_types(&logical.0, &fields);
            for output in [
                NesType::Int(IntType::Signed32),
                NesType::Int(IntType::Unsigned8),
                NesType::Int(IntType::Signed64),
                NesType::Float(FloatType::Bit32),
            ] {
                let expr = match generate_raw_expr(depth, &fields, output) {
                    Ok(expr) => expr,
                    Err(error) => panic!("{}", error.to_string()),
                };
                assert_eq!(depth_of(&expr), Some(depth));
                assert_eq!(expr.data_type(), output);
                check_types(&expr, &fields);
            }
        }
    }
}

#[test]
fn generated_expressions_of_any_type() {
    let fields = fields();
    for _ in 0..50 {
        if let Ok(expr) = generate_raw_expr(2, &fields, NesType::Undefined) {
            assert_eq!(depth_of(&expr), Some(2));
            check_types(&expr, &fields);
        }
        match generate_raw_expr(0, &fields, NesType::Undefined) {
            Ok(RawExpr::Field(field)) => assert!(fields.contains(&field)),
            Ok(other) => panic!("a field was expected, not {:?}", other),
            Err(error) => assert_eq!(
                error.to_string(),
                "GenerationError: Cannot generate literal of type undefined."
            ),
        }
    }
}

#[test]
fn generation_fails_where_nothing_fits() {
    for _ in 0..20 {
        match generate_raw_expr(0, &[], NesType::Undefined) {
            Err(error) => assert_eq!(
                error.to_string(),
                "GenerationError: Cannot generate literal of type undefined."
            ),
            Ok(expr) => panic!("nothing can be generated, but {:?} was", expr),
        }
        match generate_raw_expr(0, &[], NesType::Char) {
            Err(error) => assert_eq!(
                error.to_string(),
                "GenerationError: Cannot generate literal of type char."
            ),
            Ok(expr) => panic!("nothing can be generated, but {:?} was", expr),
        }
        match generate_raw_expr(1, &fields(), NesType::Char) {
            Err(error) => assert_eq!(
                error.to_string(),
                "GenerationError: Unable to find binary operator."
            ),
            Ok(expr) => panic!("nothing can be generated, but {:?} was", expr),
        }
        // Without a field of a number type only the logical operators are left.
        match generate_logical_expr(1, &[Field::typed("flag", NesType::Bool)]) {
            Ok(logical) => {
                assert_eq!(depth_of(&logical.0), Some(1));
                check_types(&logical.0, &[Field::typed("flag", NesType::Bool)]);
            }
            Err(error) => assert_eq!(
                error.to_string(),
                "GenerationError: Unable to find input type."
            ),
        }
        match generate_raw_expr(0, &fields(), NesType::Char) {
            Ok(expr) => assert_eq!(expr, RawExpr::Field(Field::typed("letter", NesType::Char))),
            Err(error) => assert_eq!(
                error.to_string(),
                "GenerationError: Cannot generate literal of type char."
            ),
        }
    }
}

#[test]
fn both_leaf_kinds_and_several_operators_are_drawn() {
    let fields = fields();
    let mut saw_field = false;
    let mut saw_literal = false;
    let mut operators = Vec::new();
    for _ in 0..400 {
        match generate_raw_expr(0, &fields, NesType::Bool).ok().unwrap() {
            RawExpr::Field(_) => saw_field = true,
            RawExpr::Literal(_) => saw_literal = true,
            other => panic!("a leaf was expected, not {:?}", other),
        }
        match generate_raw_expr(1, &fields, NesType::Bool).ok().unwrap() {
            RawExpr::Binary(b) => {
                if !operators.contains(&b.operator) {
                    operators.push(b.operator);
                }
            }
            other => panic!("an operator was expected, not {:?}", other),
        }
    }
    assert!(saw_field && saw_literal);
    assert!(operators.len() > 1);
    assert!(operators.iter().all(|op| op.is_logical()));
}

#[test]
fn leaves_prefer_the_field() {
    let field = Field::untyped("f");
    let literal = Literal::from(true);
    assert_eq!(
        leaf_from(Some(field.clone()), Ok(literal.clone())).ok(),
        Some(RawExpr::Field(field.clone()))
    );
    assert_eq!(leaf_from(None, Ok(literal.clone())).ok(), Some(RawExpr::Literal(literal)));
    let failed = generate_raw_expr(0, &[], NesType::Char).map(|_| Literal::from(1));
    assert_eq!(
        leaf_from(Some(field.clone()), failed).ok(),
        Some(RawExpr::Field(field))
    );
    let failed = generate_raw_expr(0, &[], NesType::Char).map(|_| Literal::from(1));
    assert!(leaf_from(None, failed).is_err());
}

#[test]
fn operators_by_the_type_they_return() {
    let logical = vec![
        BinaryOp::And,
        BinaryOp::Or,
        BinaryOp::Equals,
        BinaryOp::Greater,
        BinaryOp::GreaterEquals,
        BinaryOp::Less,
        BinaryOp::LessEquals,
    ];
    let arithmetic = vec![
        BinaryOp::Add,
        BinaryOp::Sub,
        BinaryOp::Multiply,
        BinaryOp::Divide,
        BinaryOp::Remainder,
        BinaryOp::Power,
    ];
    assert_eq!(binary_ops_returning(NesType::Bool), logical);
    assert_eq!(binary_ops_returning(NesType::Int(IntType::Signed8)), arithmetic);
    assert_eq!(binary_ops_returning(NesType::Float(FloatType::Bit64)), arithmetic);
    assert!(binary_ops_returning(NesType::Char).is_empty());
    let mut all = logical.clone();
    all.extend(arithmetic);
    assert_eq!(binary_ops_returning(NesType::Undefined), all);
    assert!(any_field_of_type(&fields(), NesType::Char));
    assert!(!any_field_of_type(&fields(), NesType::Undefined));
    assert!(!any_field_of_type(&[], NesType::Bool));
}
