//! Expressions as messages.

use crate::expression::binary_expression::{BinaryExpr, BinaryOp};
use crate::expression::expression::{ExprModel, RawExpr};
use crate::expression::field::{Field, FieldModel};
use crate::expression::literal::{Literal, LiteralModel};
use crate::expression::unary_expression::{UnaryExpr, UnaryOp};
use crate::serialization::protobuf::nes::{
    BinaryExpressionKind, ExpressionDetails, ExpressionDetailsMessage, ExpressionMessage,
    SerializableExpression, UnaryExpressionKind,
};
use crate::serialization::protobuf::serialize_data_type::{
    serialize_data_type, serialized_data_type,
};
use vstd::prelude::*;

verus! {

/// The kind of message that stands for an operator with one operand.
pub open spec fn unary_kind(operator: UnaryOp) -> UnaryExpressionKind {
    match operator {
        UnaryOp::Negate => UnaryExpressionKind::Negate,
        UnaryOp::Absolute => UnaryExpressionKind::Abs,
    }
}

/// The kind of message that stands for an operator with two operands.
pub open spec fn binary_kind(operator: BinaryOp) -> BinaryExpressionKind {
    match operator {
        BinaryOp::And => BinaryExpressionKind::And,
        BinaryOp::Or => BinaryExpressionKind::Or,
        BinaryOp::Equals => BinaryExpressionKind::Equals,
        BinaryOp::Greater => BinaryExpressionKind::Greater,
        BinaryOp::GreaterEquals => BinaryExpressionKind::GreaterEquals,
        BinaryOp::Less => BinaryExpressionKind::Less,
        BinaryOp::LessEquals => BinaryExpressionKind::LessEquals,
        BinaryOp::Add => BinaryExpressionKind::Add,
        BinaryOp::Sub => BinaryExpressionKind::Sub,
        BinaryOp::Multiply => BinaryExpressionKind::Mul,
        BinaryOp::Divide => BinaryExpressionKind::Div,
        BinaryOp::Remainder => BinaryExpressionKind::Mod,
        BinaryOp::Power => BinaryExpressionKind::Pow,
    }
}

/// The message of the value of a field under its own name.
pub open spec fn serialized_field_access(field: FieldModel) -> ExpressionMessage {
    ExpressionMessage {
        details: ExpressionDetailsMessage::FieldAccess {
            field_name: field.name,
            field_type: serialized_data_type(field.data_type),
        },
        stamp: serialized_data_type(field.data_type),
    }
}

/// The message of a field: the value of the field, inside a renaming where
/// the field has a new name.
pub open spec fn serialized_field(field: FieldModel) -> ExpressionMessage {
    match field.projected_name {
        Some(new_name) => ExpressionMessage {
            details: ExpressionDetailsMessage::FieldRename {
                new_field_name: new_name,
                original_field_access: Box::new(serialized_field_access(field)),
            },
            stamp: serialized_data_type(field.data_type),
        },
        None => serialized_field_access(field),
    }
}

/// The message of a constant.
pub open spec fn serialized_literal(literal: LiteralModel) -> ExpressionMessage {
    ExpressionMessage {
        details: ExpressionDetailsMessage::ConstantValue {
            value_type: serialized_data_type(literal.data_type),
            value: literal.value,
        },
        stamp: serialized_data_type(literal.data_type),
    }
}

/// The message of an expression: node by node the same tree, each node
/// stamped with the type recorded at it.
pub open spec fn serialized_expression(expr: ExprModel) -> ExpressionMessage
    decreases expr,
{
    match expr {
        ExprModel::Literal(literal) => serialized_literal(literal),
        ExprModel::Field(field) => serialized_field(field),
        ExprModel::Unary { operator, data_type, expr } => ExpressionMessage {
            details: ExpressionDetailsMessage::Unary {
                kind: unary_kind(operator),
                child: Box::new(serialized_expression(*expr)),
            },
            stamp: serialized_data_type(data_type),
        },
        ExprModel::Binary { operator, data_type, lhs, rhs } => ExpressionMessage {
            details: ExpressionDetailsMessage::Binary {
                kind: binary_kind(operator),
                left: Box::new(serialized_expression(*lhs)),
                right: Box::new(serialized_expression(*rhs)),
            },
            stamp: serialized_data_type(data_type),
        },
    }
}

/// The message of the value of an expression written to a field. The new
/// name of the field, if it has one, is not part of it.
pub open spec fn serialized_field_assignment(field: FieldModel, expr: ExprModel) -> ExpressionMessage {
    ExpressionMessage {
        details: ExpressionDetailsMessage::FieldAssignment {
            field_name: field.name,
            field_type: serialized_data_type(field.data_type),
            assignment: Box::new(serialized_expression(expr)),
        },
        stamp: serialized_data_type(field.data_type),
    }
}

/// Turns an expression into its message.
pub fn serialize_expression(expr: &RawExpr) -> (r: SerializableExpression)
    ensures
        r@ == serialized_expression(expr@),
    decreases expr,
{
    let data_type = serialize_data_type(expr.data_type());
    let details = match expr {
        RawExpr::Literal(literal) => literal_details(literal),
        RawExpr::Field(field) => field_details(field),
        RawExpr::Unary(UnaryExpr { expr, operator, .. }) => unary_operator_details(
            *operator,
            serialize_expression(expr),
        ),
        RawExpr::Binary(BinaryExpr { lhs, rhs, operator, .. }) => binary_operator_details(
            *operator,
            serialize_expression(lhs),
            serialize_expression(rhs),
        ),
    };
    SerializableExpression { details, stamp: data_type }
}

/// Turns the assignment of an expression to a field into its message.
pub fn serialize_field_assignment(field: &Field, expr: &RawExpr) -> (r: SerializableExpression)
    ensures
        r@ == serialized_field_assignment(field@, expr@),
{
    let data_type = serialize_data_type(field.data_type());
    let details = field_assignment_details(field, expr);
    SerializableExpression { details, stamp: data_type }
}

/// Turns a field into its message.
pub fn serialize_field(field: &Field) -> (r: SerializableExpression)
    ensures
        r@ == serialized_field(field@),
{
    let data_type = serialize_data_type(field.data_type());
    let details = field_details(field);
    SerializableExpression { details, stamp: data_type }
}

fn literal_details(literal: &Literal) -> (r: ExpressionDetails)
    ensures
        (SerializableExpression { details: r, stamp: serialized_data_type(literal@.data_type) })@
            == serialized_literal(literal@),
{
    ExpressionDetails::ConstantValue {
        value_type: serialize_data_type(literal.data_type()),
        value: literal.value().to_owned(),
    }
}

fn field_assignment_details(field: &Field, raw_expr: &RawExpr) -> (r: ExpressionDetails)
    ensures
        (SerializableExpression { details: r, stamp: serialized_data_type(field@.data_type) })@
            == serialized_field_assignment(field@, raw_expr@),
{
    ExpressionDetails::FieldAssignment {
        field_name: field.name().to_owned(),
        field_type: serialize_data_type(field.data_type()),
        assignment: Box::new(serialize_expression(raw_expr)),
    }
}

fn field_access(field: &Field) -> (r: SerializableExpression)
    ensures
        r@ == serialized_field_access(field@),
{
    SerializableExpression {
        details: ExpressionDetails::FieldAccess {
            field_name: field.name().to_owned(),
            field_type: serialize_data_type(field.data_type()),
        },
        stamp: serialize_data_type(field.data_type()),
    }
}

fn field_details(field: &Field) -> (r: ExpressionDetails)
    ensures
        (SerializableExpression { details: r, stamp: serialized_data_type(field@.data_type) })@
            == serialized_field(field@),
{
    if let Some(pr_name) = field.projected_name() {
        return ExpressionDetails::FieldRename {
            new_field_name: pr_name.to_owned(),
            original_field_access: Box::new(field_access(field)),
        };
    }
    field_access(field).details
}

fn unary_operator_details(operator: UnaryOp, child: SerializableExpression) -> (r:
    ExpressionDetails)
    ensures
        r == (ExpressionDetails::Unary { kind: unary_kind(operator), child: Box::new(child) }),
{
    let kind = match operator {
        UnaryOp::Negate => UnaryExpressionKind::Negate,
        UnaryOp::Absolute => UnaryExpressionKind::Abs,
    };
    ExpressionDetails::Unary { kind, child: Box::new(child) }
}

fn binary_operator_details(
    operator: BinaryOp,
    lhs: SerializableExpression,
    rhs: SerializableExpression,
) -> (r: ExpressionDetails)
    ensures
        r == (ExpressionDetails::Binary {
            kind: binary_kind(operator),
            left: Box::new(lhs),
            right: Box::new(rhs),
        }),
{
    let kind = match operator {
        BinaryOp::And => BinaryExpressionKind::And,
        BinaryOp::Or => BinaryExpressionKind::Or,
        BinaryOp::Equals => BinaryExpressionKind::Equals,
        BinaryOp::Greater => BinaryExpressionKind::Greater,
        BinaryOp::GreaterEquals => BinaryExpressionKind::GreaterEquals,
        BinaryOp::Less => BinaryExpressionKind::Less,
        BinaryOp::LessEquals => BinaryExpressionKind::LessEquals,
        BinaryOp::Add => BinaryExpressionKind::Add,
        BinaryOp::Sub => BinaryExpressionKind::Sub,
        BinaryOp::Multiply => BinaryExpressionKind::Mul,
        BinaryOp::Divide => BinaryExpressionKind::Div,
        BinaryOp::Remainder => BinaryExpressionKind::Mod,
        BinaryOp::Power => BinaryExpressionKind::Pow,
    };
    ExpressionDetails::Binary { kind, left: Box::new(lhs), right: Box::new(rhs) }
}

} // verus!
