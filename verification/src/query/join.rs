//! Joins of two streams and the steps that build one.

use crate::expression::field::{Field, FieldModel};
use crate::query::operator::{Operator, OperatorModel};
use crate::query::query::QueryBuilder;
use crate::query::window::window_descriptor::WindowDescriptor;
use vstd::prelude::*;

verus! {

/// Pairs the events of two streams that agree on a field within a window.
/// The first stream is the child, the second the joined operator tree.
#[derive(Debug)]
pub struct Join {
    pub lhs: Field,
    pub rhs: Field,
    pub window: WindowDescriptor,
    pub joined_operator: Box<Operator>,
    pub child: Option<Box<Operator>>,
}

/// A join that waits for the field of its first stream.
pub struct JoinWhereBuilder {
    query_builder: QueryBuilder,
    joined: QueryBuilder,
}

/// A join that waits for the field of its second stream.
pub struct JoinEqualsBuilder {
    query_builder: QueryBuilder,
    joined: QueryBuilder,
    lhs: Field,
}

/// A join that waits for its window.
pub struct JoinWindowBuilder {
    query_builder: QueryBuilder,
    joined: QueryBuilder,
    lhs: Field,
    rhs: Field,
}

impl JoinWhereBuilder {
    /// The operator tree of the first stream.
    pub closed spec fn left(&self) -> OperatorModel {
        self.query_builder@
    }

    /// The operator tree of the second stream.
    pub closed spec fn right(&self) -> OperatorModel {
        self.joined@
    }

    pub(crate) fn new(query_builder: QueryBuilder, joined: QueryBuilder) -> (r: Self)
        ensures
            r.left() == query_builder@,
            r.right() == joined@,
    {
        JoinWhereBuilder { query_builder, joined }
    }

    /// Names the field of the first stream.
    pub fn where_field<F: Into<Field>>(self, field: F) -> (r: JoinEqualsBuilder)
        ensures
            r.left() == self.left(),
            r.right() == self.right(),
            exists|named: Field| #[trigger] call_ensures(F::into, (field,), named) && r.lhs() == named@,
    {
        JoinEqualsBuilder {
            query_builder: self.query_builder,
            joined: self.joined,
            lhs: field.into(),
        }
    }
}

impl JoinEqualsBuilder {
    /// The operator tree of the first stream.
    pub closed spec fn left(&self) -> OperatorModel {
        self.query_builder@
    }

    /// The operator tree of the second stream.
    pub closed spec fn right(&self) -> OperatorModel {
        self.joined@
    }

    /// The field of the first stream.
    pub closed spec fn lhs(&self) -> FieldModel {
        self.lhs@
    }

    /// Names the field of the second stream.
    pub fn equals<F: Into<Field>>(self, field: F) -> (r: JoinWindowBuilder)
        ensures
            r.left() == self.left(),
            r.right() == self.right(),
            r.lhs() == self.lhs(),
            exists|named: Field| #[trigger] call_ensures(F::into, (field,), named) && r.rhs() == named@,
    {
        JoinWindowBuilder {
            query_builder: self.query_builder,
            joined: self.joined,
            lhs: self.lhs,
            rhs: field.into(),
        }
    }
}

impl JoinWindowBuilder {
    /// The operator tree of the first stream.
    pub closed spec fn left(&self) -> OperatorModel {
        self.query_builder@
    }

    /// The operator tree of the second stream.
    pub closed spec fn right(&self) -> OperatorModel {
        self.joined@
    }

    /// The field of the first stream.
    pub closed spec fn lhs(&self) -> FieldModel {
        self.lhs@
    }

    /// The field of the second stream.
    pub closed spec fn rhs(&self) -> FieldModel {
        self.rhs@
    }

    /// Puts the join over the given window above the tree of the first
    /// stream, with the tree of the second stream as its second input.
    pub fn window(self, descriptor: WindowDescriptor) -> (r: QueryBuilder)
        ensures
            r@.ends_in_sources(),
            r@ == (OperatorModel::Join {
                lhs: self.lhs(),
                rhs: self.rhs(),
                window: descriptor@,
                joined_operator: Box::new(self.right()),
                child: Some(Box::new(self.left())),
            }),
    {
        let child_operator = self.query_builder.into_operator();
        let joined_operator = self.joined.into_operator();
        QueryBuilder::from_operator(
            Operator::Join(
                Join {
                    lhs: self.lhs,
                    rhs: self.rhs,
                    window: descriptor,
                    joined_operator: Box::new(joined_operator),
                    child: Some(Box::new(child_operator)),
                },
            ),
        )
    }
}

} // verus!
