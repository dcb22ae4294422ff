//! Operators with two operands.

use crate::expression::expression::RawExpr;
use crate::types::NesType;
use vstd::prelude::*;

verus! {

/// An operator applied to two expressions, with the type of the result.
#[derive(Debug, PartialEq)]
pub struct BinaryExpr {
    pub lhs: Box<RawExpr>,
    pub rhs: Box<RawExpr>,
    pub operator: BinaryOp,
    pub data_type: NesType,
}

impl BinaryExpr {
    /// The type of the result.
    pub fn data_type(&self) -> (r: NesType)
        ensures
            r == self.data_type,
    {
        self.data_type
    }
}

/// The operators with two operands.
#[derive(Debug, Clone, Copy, PartialEq, Eq, Structural)]
pub enum BinaryOp {
    And,
    Or,
    Equals,
    Greater,
    GreaterEquals,
    Less,
    LessEquals,
    Add,
    Sub,
    Multiply,
    Divide,
    Remainder,
    Power,
}

/// The three families of operators with two operands.
#[derive(Debug, Clone, Copy, PartialEq, Eq, Structural)]
pub enum BinaryOpType {
    /// Truth values in, a truth value out.
    Logical,
    /// Two values of one type in, a truth value out.
    Relational,
    /// Two numbers of one type in, a number of that type out.
    Arithmetic,
}

impl BinaryOp {
    /// The family of the operator.
    pub open spec fn spec_op_type(&self) -> BinaryOpType {
        match *self {
            BinaryOp::And | BinaryOp::Or => BinaryOpType::Logical,
            BinaryOp::Equals
            | BinaryOp::Greater
            | BinaryOp::GreaterEquals
            | BinaryOp::Less
            | BinaryOp::LessEquals => BinaryOpType::Relational,
            BinaryOp::Add
            | BinaryOp::Sub
            | BinaryOp::Multiply
            | BinaryOp::Divide
            | BinaryOp::Remainder
            | BinaryOp::Power => BinaryOpType::Arithmetic,
        }
    }

    /// Whether the operator yields a truth value.
    pub open spec fn spec_is_logical(&self) -> bool {
        self.spec_op_type() != BinaryOpType::Arithmetic
    }

    /// Whether the operator yields a truth value.
    #[verifier::when_used_as_spec(spec_is_logical)]
    pub fn is_logical(&self) -> (r: bool)
        ensures
            r == self.spec_is_logical(),
    {
        match self {
            Self::And
            | Self::Or
            | Self::Equals
            | Self::Greater
            | Self::GreaterEquals
            | Self::Less
            | Self::LessEquals => true,
            _ => false,
        }
    }

    /// The family of the operator.
    #[verifier::when_used_as_spec(spec_op_type)]
    pub fn get_op_type(&self) -> (r: BinaryOpType)
        ensures
            r == self.spec_op_type(),
    {
        match self {
            Self::And | Self::Or => BinaryOpType::Logical,
            Self::Equals
            | Self::Greater
            | Self::GreaterEquals
            | Self::Less
            | Self::LessEquals => BinaryOpType::Relational,
            Self::Add
            | Self::Sub
            | Self::Multiply
            | Self::Divide
            | Self::Remainder
            | Self::Power => BinaryOpType::Arithmetic,
        }
    }
}

} // verus!
