//! Operators with one operand.

use crate::expression::expression::RawExpr;
use crate::types::NesType;
use vstd::prelude::*;

verus! {

/// An operator applied to one expression, with the type of the result.
#[derive(Debug, PartialEq)]
pub struct UnaryExpr {
    pub expr: Box<RawExpr>,
    pub operator: UnaryOp,
    pub data_type: NesType,
}

impl UnaryExpr {
    /// The type of the result.
    pub fn data_type(&self) -> (r: NesType)
        ensures
            r == self.data_type,
    {
        self.data_type
    }
}

/// The operators with one operand.
#[derive(Debug, Clone, Copy, PartialEq, Eq, Structural)]
pub enum UnaryOp {
    Negate,
    Absolute,
}

impl UnaryOp {
    /// Whether the operator works on truth values.
    pub open spec fn spec_is_logical(&self) -> bool {
        *self == UnaryOp::Negate
    }

    /// Whether the operator works on truth values.
    #[verifier::when_used_as_spec(spec_is_logical)]
    pub fn is_logical(&self) -> (r: bool)
        ensures
            r == self.spec_is_logical(),
    {
        match self {
            UnaryOp::Negate => true,
            UnaryOp::Absolute => false,
        }
    }
}

} // verus!
