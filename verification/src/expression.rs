//! Expressions over stream attributes: the tree, its leaves and its builder.

use crate::expression::expression::{ExprModel, RawExpr};
use crate::expression::unary_expression::{UnaryExpr, UnaryOp};
use crate::types::NesType;
use vstd::prelude::*;

pub mod binary_expression;
pub mod expression;
pub mod expression_builder;
pub mod field;
pub mod literal;
pub mod unary_expression;

pub use expression_builder::{ExprBuildError, ExprBuilder};
pub use field::Field;

verus! {

/// An expression that yields a truth value: the form that a filter takes.
#[derive(Debug, PartialEq)]
pub struct LogicalExpr(pub RawExpr);

/// An expression that yields a number: the form that a map takes.
#[derive(Debug, PartialEq)]
pub struct ArithmeticExpr(pub RawExpr);

impl View for LogicalExpr {
    type V = ExprModel;

    open spec fn view(&self) -> ExprModel {
        self.0@
    }
}

impl View for ArithmeticExpr {
    type V = ExprModel;

    open spec fn view(&self) -> ExprModel {
        self.0@
    }
}

impl Clone for LogicalExpr {
    fn clone(&self) -> (r: Self)
        ensures
            r@ == self@,
    {
        LogicalExpr(self.0.clone())
    }
}

impl Clone for ArithmeticExpr {
    fn clone(&self) -> (r: Self)
        ensures
            r@ == self@,
    {
        ArithmeticExpr(self.0.clone())
    }
}

impl LogicalExpr {
    /// The negation of the expression.
    pub fn not(self) -> (r: Self)
        ensures
            r@ == (ExprModel::Unary {
                operator: UnaryOp::Negate,
                data_type: NesType::Bool,
                expr: Box::new(self@),
            }),
    {
        LogicalExpr(
            RawExpr::Unary(
                UnaryExpr {
                    expr: Box::new(self.0),
                    operator: UnaryOp::Negate,
                    data_type: NesType::Bool,
                },
            ),
        )
    }
}

} // verus!
