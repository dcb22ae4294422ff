//! Step-by-step construction of expressions with deferred type errors.

use crate::expression::binary_expression::{BinaryExpr, BinaryOp, BinaryOpType};
use crate::expression::expression::{
    binary_accepts, binary_result_type, unary_accepts, unary_result_type, ExprModel, RawExpr,
};
use crate::expression::field::{Field, FieldModel};
use crate::expression::literal::Literal;
use crate::expression::unary_expression::{UnaryExpr, UnaryOp};
use crate::expression::{ArithmeticExpr, LogicalExpr};
use crate::types::NesType;
use vstd::prelude::*;

verus! {

/// The one error of expression building: an operator met operands that it
/// does not take, or the finished expression has not the type asked for.
#[derive(Debug, Clone, Copy, PartialEq, Eq, Structural)]
pub struct ExprBuildError {}

/// An expression under construction. A step that meets operands of the
/// wrong type still adds its node, with the type `Undefined`, and the
/// builder remembers that it failed; only the final step reports it.
pub struct ExprBuilder {
    expr: RawExpr,
    error: Option<ExprBuildError>,
}

/// What an [`ExprBuilder`] stands for.
pub ghost struct ExprBuilderModel {
    /// The expression built so far.
    pub expr: ExprModel,
    /// Whether an earlier step met operands that it does not take.
    pub failed: bool,
}

/// The builder after a step with one operand.
pub open spec fn unary_step(operator: UnaryOp, operand: ExprBuilderModel) -> ExprBuilderModel {
    ExprBuilderModel {
        expr: ExprModel::Unary {
            operator,
            data_type: unary_result_type(operator, operand.expr.data_type()),
            expr: Box::new(operand.expr),
        },
        failed: operand.failed || !unary_accepts(operator, operand.expr.data_type()),
    }
}

/// The builder after a step with two operands.
pub open spec fn binary_step(
    operator: BinaryOp,
    lhs: ExprBuilderModel,
    rhs: ExprBuilderModel,
) -> ExprBuilderModel {
    ExprBuilderModel {
        expr: ExprModel::Binary {
            operator,
            data_type: binary_result_type(operator, lhs.expr.data_type(), rhs.expr.data_type()),
            lhs: Box::new(lhs.expr),
            rhs: Box::new(rhs.expr),
        },
        failed: lhs.failed || rhs.failed || !binary_accepts(
            operator,
            lhs.expr.data_type(),
            rhs.expr.data_type(),
        ),
    }
}

impl ExprBuilderModel {
    /// What holds of every builder: each operator node records the type that
    /// its rule gives, and the builder has failed exactly if some operator in
    /// its expression does not take its operands.
    pub open spec fn well_formed(self) -> bool {
        &&& self.expr.types_recorded()
        &&& self.failed == !self.expr.operands_accepted()
    }
}

impl View for ExprBuilder {
    type V = ExprBuilderModel;

    closed spec fn view(&self) -> ExprBuilderModel {
        ExprBuilderModel { expr: self.expr@, failed: self.error is Some }
    }
}

impl ExprBuilder {
    #[verifier::type_invariant]
    closed spec fn invariant_holds(self) -> bool {
        self@.well_formed()
    }

    /// Starts from the constant that the value gives.
    pub fn literal<L: Into<Literal>>(value: L) -> (r: Self)
        ensures
            r@.well_formed(),
            exists|literal: Literal| #[trigger]
                call_ensures(L::into, (value,), literal) && r@ == (ExprBuilderModel {
                    expr: ExprModel::Literal(literal@),
                    failed: false,
                }),
    {
        Self { expr: RawExpr::Literal(value.into()), error: None }
    }

    /// Starts from a field of unknown type, named by what the argument gives
    /// as a string.
    pub fn field<S: Into<String>>(name: S) -> (r: Self)
        ensures
            r@.well_formed(),
            exists|text: String| #[trigger]
                call_ensures(S::into, (name,), text) && r@ == (ExprBuilderModel {
                    expr: ExprModel::Field(
                        FieldModel {
                            name: text@,
                            projected_name: None,
                            data_type: NesType::Undefined,
                        },
                    ),
                    failed: false,
                }),
    {
        Self { expr: RawExpr::Field(Field::untyped(name)), error: None }
    }

    /// Starts from a field of the given type, named by what the argument
    /// gives as a string.
    pub fn typed_field<S: Into<String>>(name: S, data_type: NesType) -> (r: Self)
        ensures
            r@.well_formed(),
            exists|text: String| #[trigger]
                call_ensures(S::into, (name,), text) && r@ == (ExprBuilderModel {
                    expr: ExprModel::Field(
                        FieldModel { name: text@, projected_name: None, data_type },
                    ),
                    failed: false,
                }),
    {
        Self { expr: RawExpr::Field(Field::typed(name, data_type)), error: None }
    }

    fn unary_operator(self, operator: UnaryOp) -> (r: Self)
        requires
            operator == UnaryOp::Negate,
        ensures
            r@ == unary_step(operator, self@),
            r@.well_formed(),
    {
        proof {
            use_type_invariant(&self);
        }
        let mut error = self.error;
        let data_type = match self.expr.data_type() {
            NesType::Undefined | NesType::Bool => NesType::Bool,
            _ => {
                error = Some(ExprBuildError {  });
                NesType::Undefined
            },
        };
        Self {
            expr: RawExpr::Unary(UnaryExpr { expr: Box::new(self.expr), operator, data_type }),
            error,
        }
    }

    /// The negation of the expression built so far. It takes a truth value
    /// or a value of unknown type.
    pub fn not(self) -> (r: Self)
        ensures
            r@ == unary_step(UnaryOp::Negate, self@),
            r@.well_formed(),
    {
        self.unary_operator(UnaryOp::Negate)
    }

    fn boolean_operator(self, other: Self, operator: BinaryOp) -> (r: Self)
        requires
            operator == BinaryOp::And || operator == BinaryOp::Or,
        ensures
            r@ == binary_step(operator, self@, other@),
            r@.well_formed(),
    {
        proof {
            use_type_invariant(&self);
            use_type_invariant(&other);
        }
        let mut error = match self.error {
            Some(e) => Some(e),
            None => other.error,
        };
        let data_type = match NesType::try_resolve(self.expr.data_type(), other.expr.data_type()) {
            Some(NesType::Bool) | Some(NesType::Undefined) => NesType::Bool,
            _ => {
                error = Some(ExprBuildError {  });
                NesType::Undefined
            },
        };
        Self {
            expr: RawExpr::Binary(
                BinaryExpr {
                    lhs: Box::new(self.expr),
                    rhs: Box::new(other.expr),
                    operator,
                    data_type,
                },
            ),
            error,
        }
    }

    fn cmp_operator(self, other: Self, operator: BinaryOp) -> (r: Self)
        requires
            operator.spec_op_type() == BinaryOpType::Relational,
        ensures
            r@ == binary_step(operator, self@, other@),
            r@.well_formed(),
    {
        proof {
            use_type_invariant(&self);
            use_type_invariant(&other);
        }
        let mut error = match self.error {
            Some(e) => Some(e),
            None => other.error,
        };
        let data_type = match NesType::try_resolve(self.expr.data_type(), other.expr.data_type()) {
            Some(_) => NesType::Bool,
            None => {
                error = Some(ExprBuildError {  });
                NesType::Undefined
            },
        };
        Self {
            expr: RawExpr::Binary(
                BinaryExpr {
                    lhs: Box::new(self.expr),
                    rhs: Box::new(other.expr),
                    operator,
                    data_type,
                },
            ),
            error,
        }
    }

    /// Both expressions hold. Each side is a truth value or of unknown type.
    pub fn and(self, other: Self) -> (r: Self)
        ensures
            r@ == binary_step(BinaryOp::And, self@, other@),
            r@.well_formed(),
    {
        self.boolean_operator(other, BinaryOp::And)
    }

    /// One of the expressions holds. Each side is a truth value or of
    /// unknown type.
    pub fn or(self, other: Self) -> (r: Self)
        ensures
            r@ == binary_step(BinaryOp::Or, self@, other@),
            r@.well_formed(),
    {
        self.boolean_operator(other, BinaryOp::Or)
    }

    /// The two expressions are equal. Their types unify.
    pub fn equals(self, other: Self) -> (r: Self)
        ensures
            r@ == binary_step(BinaryOp::Equals, self@, other@),
            r@.well_formed(),
    {
        self.cmp_operator(other, BinaryOp::Equals)
    }

    /// The left expression is greater. Their types unify.
    pub fn greater_than(self, other: Self) -> (r: Self)
        ensures
            r@ == binary_step(BinaryOp::Greater, self@, other@),
            r@.well_formed(),
    {
        self.cmp_operator(other, BinaryOp::Greater)
    }

    /// The left expression is greater or equal. Their types unify.
    pub fn greater_equals(self, other: Self) -> (r: Self)
        ensures
            r@ == binary_step(BinaryOp::GreaterEquals, self@, other@),
            r@.well_formed(),
    {
        self.cmp_operator(other, BinaryOp::GreaterEquals)
    }

    /// The left expression is less. Their types unify.
    pub fn less_than(self, other: Self) -> (r: Self)
        ensures
            r@ == binary_step(BinaryOp::Less, self@, other@),
            r@.well_formed(),
    {
        self.cmp_operator(other, BinaryOp::Less)
    }

    /// The left expression is less or equal. Their types unify.
    pub fn less_equals(self, other: Self) -> (r: Self)
        ensures
            r@ == binary_step(BinaryOp::LessEquals, self@, other@),
            r@.well_formed(),
    {
        self.cmp_operator(other, BinaryOp::LessEquals)
    }

    /// Finishes an expression that yields a number. It succeeds exactly if
    /// no step has failed and the type of the expression is a number type.
    pub fn build_arith(self) -> (r: Result<ArithmeticExpr, ExprBuildError>)
        ensures
            self@.well_formed(),
            r is Ok == (!self@.failed && self@.expr.data_type().spec_is_numeric()),
            r is Ok ==> r->Ok_0@ == self@.expr,
    {
        proof {
            use_type_invariant(&self);
        }
        if let Some(err) = self.error {
            return Err(err);
        }
        if self.expr.data_type().is_numeric() {
            Ok(ArithmeticExpr(self.expr))
        } else {
            Err(ExprBuildError {  })
        }
    }

    /// Finishes an expression that yields a truth value. It succeeds exactly
    /// if no step has failed and the type of the expression is `Bool`.
    pub fn build_logical(self) -> (r: Result<LogicalExpr, ExprBuildError>)
        ensures
            self@.well_formed(),
            r is Ok == (!self@.failed && self@.expr.data_type() == NesType::Bool),
            r is Ok ==> r->Ok_0@ == self@.expr,
    {
        proof {
            use_type_invariant(&self);
        }
        if let Some(err) = self.error {
            return Err(err);
        }
        if self.expr.data_type() == NesType::Bool {
            return Ok(LogicalExpr(self.expr));
        }
        Err(ExprBuildError {  })
    }
}

} // verus!
