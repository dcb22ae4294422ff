//! The expression tree and the rules that give each node its type.

use crate::expression::binary_expression::{BinaryExpr, BinaryOp, BinaryOpType};
use crate::expression::field::{Field, FieldModel};
use crate::expression::literal::{Literal, LiteralModel};
use crate::expression::unary_expression::{UnaryExpr, UnaryOp};
use crate::types::{resolve, NesType};
use vstd::prelude::*;

verus! {

/// An expression: a constant, a field, or an operator over expressions.
/// Every node carries the type of its result.
#[derive(Debug, PartialEq)]
pub enum RawExpr {
    Literal(Literal),
    Field(Field),
    Unary(UnaryExpr),
    Binary(BinaryExpr),
}

/// What a [`RawExpr`] stands for: the same tree over texts.
#[allow(inconsistent_fields)]
pub ghost enum ExprModel {
    Literal(LiteralModel),
    Field(FieldModel),
    Unary { operator: UnaryOp, data_type: NesType, expr: Box<ExprModel> },
    Binary { operator: BinaryOp, data_type: NesType, lhs: Box<ExprModel>, rhs: Box<ExprModel> },
}

/// The type that an operator with one operand gives to its result: a truth
/// value for a negation of a truth value or of a value of unknown type, the
/// operand's type for the magnitude of a number, and `Undefined` where the
/// operand does not fit.
pub open spec fn unary_result_type(operator: UnaryOp, operand: NesType) -> NesType {
    match operator {
        UnaryOp::Negate => if unary_accepts(operator, operand) {
            NesType::Bool
        } else {
            NesType::Undefined
        },
        UnaryOp::Absolute => if operand.spec_is_numeric() {
            operand
        } else {
            NesType::Undefined
        },
    }
}

/// Whether an operator with one operand takes an operand of the given type.
pub open spec fn unary_accepts(operator: UnaryOp, operand: NesType) -> bool {
    match operator {
        UnaryOp::Negate => operand == NesType::Undefined || operand == NesType::Bool,
        UnaryOp::Absolute => operand == NesType::Undefined || operand.spec_is_numeric(),
    }
}

/// Whether an operator with two operands takes operands of the given types:
/// the types unify, to a truth value for a logical operator and to a number
/// for an arithmetic one, where the type is known at all.
pub open spec fn binary_accepts(operator: BinaryOp, lhs: NesType, rhs: NesType) -> bool {
    match resolve(lhs, rhs) {
        Some(unified) => match operator.spec_op_type() {
            BinaryOpType::Logical => unified == NesType::Bool || unified == NesType::Undefined,
            BinaryOpType::Relational => true,
            BinaryOpType::Arithmetic => unified == NesType::Undefined
                || unified.spec_is_numeric(),
        },
        None => false,
    }
}

/// The type that an operator with two operands gives to its result: a truth
/// value for a logical or relational operator, the operands' common type for
/// an arithmetic one, and `Undefined` where the operands do not fit.
pub open spec fn binary_result_type(operator: BinaryOp, lhs: NesType, rhs: NesType) -> NesType {
    if !binary_accepts(operator, lhs, rhs) {
        NesType::Undefined
    } else if operator.spec_op_type() == BinaryOpType::Arithmetic {
        resolve(lhs, rhs).unwrap()
    } else {
        NesType::Bool
    }
}

impl ExprModel {
    /// The type recorded at the root.
    pub open spec fn data_type(self) -> NesType {
        match self {
            ExprModel::Literal(literal) => literal.data_type,
            ExprModel::Field(field) => field.data_type,
            ExprModel::Unary { data_type, .. } => data_type,
            ExprModel::Binary { data_type, .. } => data_type,
        }
    }

    /// Whether the expression is a constant or a field.
    pub open spec fn is_leaf(self) -> bool {
        self is Literal || self is Field
    }

    /// The type of the root as the operators' rules give it, computed from
    /// the leaves upwards.
    pub open spec fn computed_type(self) -> NesType
        decreases self,
    {
        match self {
            ExprModel::Literal(literal) => literal.data_type,
            ExprModel::Field(field) => field.data_type,
            ExprModel::Unary { operator, expr, .. } => unary_result_type(
                operator,
                expr.computed_type(),
            ),
            ExprModel::Binary { operator, lhs, rhs, .. } => binary_result_type(
                operator,
                lhs.computed_type(),
                rhs.computed_type(),
            ),
        }
    }

    /// Every operator node records the type that its rule gives for the types
    /// recorded at its operands.
    pub open spec fn types_recorded(self) -> bool
        decreases self,
    {
        match self {
            ExprModel::Literal(_) => true,
            ExprModel::Field(_) => true,
            ExprModel::Unary { operator, data_type, expr } => {
                &&& expr.types_recorded()
                &&& data_type == unary_result_type(operator, expr.data_type())
            },
            ExprModel::Binary { operator, data_type, lhs, rhs } => {
                &&& lhs.types_recorded()
                &&& rhs.types_recorded()
                &&& data_type == binary_result_type(operator, lhs.data_type(), rhs.data_type())
            },
        }
    }

    /// Every operator node takes the types recorded at its operands.
    pub open spec fn operands_accepted(self) -> bool
        decreases self,
    {
        match self {
            ExprModel::Literal(_) => true,
            ExprModel::Field(_) => true,
            ExprModel::Unary { operator, expr, .. } => {
                &&& expr.operands_accepted()
                &&& unary_accepts(operator, expr.data_type())
            },
            ExprModel::Binary { operator, lhs, rhs, .. } => {
                &&& lhs.operands_accepted()
                &&& rhs.operands_accepted()
                &&& binary_accepts(operator, lhs.data_type(), rhs.data_type())
            },
        }
    }

    /// The constants and fields of the expression, from left to right.
    pub open spec fn leafs(self) -> Seq<ExprModel>
        decreases self,
    {
        match self {
            ExprModel::Literal(_) => seq![self],
            ExprModel::Field(_) => seq![self],
            ExprModel::Unary { expr, .. } => expr.leafs(),
            ExprModel::Binary { lhs, rhs, .. } => lhs.leafs() + rhs.leafs(),
        }
    }

    /// The operator nodes with a constant or a field among their operands:
    /// a node first, then those below it, from left to right.
    pub open spec fn leaf_parents(self) -> Seq<ExprModel>
        decreases self,
    {
        match self {
            ExprModel::Literal(_) => Seq::empty(),
            ExprModel::Field(_) => Seq::empty(),
            ExprModel::Unary { expr, .. } => {
                let own = if expr.is_leaf() {
                    seq![self]
                } else {
                    Seq::empty()
                };
                own + expr.leaf_parents()
            },
            ExprModel::Binary { lhs, rhs, .. } => {
                let own = if lhs.is_leaf() || rhs.is_leaf() {
                    seq![self]
                } else {
                    Seq::empty()
                };
                own + lhs.leaf_parents() + rhs.leaf_parents()
            },
        }
    }
}

/// The tree that an expression stands for.
pub open spec fn expr_model(e: RawExpr) -> ExprModel
    decreases e,
{
    match e {
        RawExpr::Literal(literal) => ExprModel::Literal(literal@),
        RawExpr::Field(field) => ExprModel::Field(field@),
        RawExpr::Unary(unary) => ExprModel::Unary {
            operator: unary.operator,
            data_type: unary.data_type,
            expr: Box::new(expr_model(*unary.expr)),
        },
        RawExpr::Binary(binary) => ExprModel::Binary {
            operator: binary.operator,
            data_type: binary.data_type,
            lhs: Box::new(expr_model(*binary.lhs)),
            rhs: Box::new(expr_model(*binary.rhs)),
        },
    }
}

/// The trees that a sequence of expressions stands for.
pub open spec fn expr_models(exprs: Seq<RawExpr>) -> Seq<ExprModel> {
    exprs.map_values(|e: RawExpr| e@)
}

impl View for RawExpr {
    type V = ExprModel;

    open spec fn view(&self) -> ExprModel {
        expr_model(*self)
    }
}

/// Where every operator node records the type that its rule gives, the type
/// recorded at the root is the type computed from the leaves.
pub proof fn lemma_recorded_type_is_computed(e: ExprModel)
    requires
        e.types_recorded(),
    ensures
        e.data_type() == e.computed_type(),
    decreases e,
{
    match e {
        ExprModel::Literal(_) => {},
        ExprModel::Field(_) => {},
        ExprModel::Unary { expr, .. } => {
            lemma_recorded_type_is_computed(*expr);
        },
        ExprModel::Binary { lhs, rhs, .. } => {
            lemma_recorded_type_is_computed(*lhs);
            lemma_recorded_type_is_computed(*rhs);
        },
    }
}

/// The type that an operator with one operand gives to its result.
pub fn unary_type(operator: UnaryOp, operand: NesType) -> (r: NesType)
    ensures
        r == unary_result_type(operator, operand),
{
    match operator {
        UnaryOp::Negate => match operand {
            NesType::Undefined | NesType::Bool => NesType::Bool,
            _ => NesType::Undefined,
        },
        UnaryOp::Absolute => if operand.is_numeric() {
            operand
        } else {
            NesType::Undefined
        },
    }
}

/// The type that an operator with two operands gives to its result.
pub fn binary_type(operator: BinaryOp, lhs: NesType, rhs: NesType) -> (r: NesType)
    ensures
        r == binary_result_type(operator, lhs, rhs),
{
    match NesType::try_resolve(lhs, rhs) {
        Some(unified) => match operator.get_op_type() {
            BinaryOpType::Logical => match unified {
                NesType::Bool | NesType::Undefined => NesType::Bool,
                _ => NesType::Undefined,
            },
            BinaryOpType::Relational => NesType::Bool,
            BinaryOpType::Arithmetic => if unified.is_numeric() {
                unified
            } else {
                NesType::Undefined
            },
        },
        None => NesType::Undefined,
    }
}

fn clone_expr(e: &RawExpr) -> (r: RawExpr)
    ensures
        r@ == e@,
    decreases e,
{
    match e {
        RawExpr::Literal(literal) => RawExpr::Literal(literal.clone()),
        RawExpr::Field(field) => RawExpr::Field(field.clone()),
        RawExpr::Unary(unary) => RawExpr::Unary(
            UnaryExpr {
                expr: Box::new(clone_expr(&unary.expr)),
                operator: unary.operator,
                data_type: unary.data_type,
            },
        ),
        RawExpr::Binary(binary) => RawExpr::Binary(
            BinaryExpr {
                lhs: Box::new(clone_expr(&binary.lhs)),
                rhs: Box::new(clone_expr(&binary.rhs)),
                operator: binary.operator,
                data_type: binary.data_type,
            },
        ),
    }
}

impl Clone for RawExpr {
    fn clone(&self) -> (r: Self)
        ensures
            r@ == self@,
    {
        clone_expr(self)
    }
}

impl Clone for UnaryExpr {
    fn clone(&self) -> (r: Self)
        ensures
            r.expr@ == self.expr@,
            r.operator == self.operator,
            r.data_type == self.data_type,
    {
        UnaryExpr {
            expr: Box::new(clone_expr(&self.expr)),
            operator: self.operator,
            data_type: self.data_type,
        }
    }
}

impl Clone for BinaryExpr {
    fn clone(&self) -> (r: Self)
        ensures
            r.lhs@ == self.lhs@,
            r.rhs@ == self.rhs@,
            r.operator == self.operator,
            r.data_type == self.data_type,
    {
        BinaryExpr {
            lhs: Box::new(clone_expr(&self.lhs)),
            rhs: Box::new(clone_expr(&self.rhs)),
            operator: self.operator,
            data_type: self.data_type,
        }
    }
}

impl vstd::std_specs::convert::FromSpecImpl<Field> for RawExpr {
    open spec fn obeys_from_spec() -> bool {
        true
    }

    open spec fn from_spec(field: Field) -> RawExpr {
        RawExpr::Field(field)
    }
}

impl From<Field> for RawExpr {
    fn from(field: Field) -> (r: RawExpr) {
        RawExpr::Field(field)
    }
}

impl vstd::std_specs::convert::FromSpecImpl<Literal> for RawExpr {
    open spec fn obeys_from_spec() -> bool {
        true
    }

    open spec fn from_spec(literal: Literal) -> RawExpr {
        RawExpr::Literal(literal)
    }
}

impl From<Literal> for RawExpr {
    fn from(literal: Literal) -> (r: RawExpr) {
        RawExpr::Literal(literal)
    }
}

impl vstd::std_specs::convert::FromSpecImpl<UnaryExpr> for RawExpr {
    open spec fn obeys_from_spec() -> bool {
        true
    }

    open spec fn from_spec(expr: UnaryExpr) -> RawExpr {
        RawExpr::Unary(expr)
    }
}

impl From<UnaryExpr> for RawExpr {
    fn from(expr: UnaryExpr) -> (r: RawExpr) {
        RawExpr::Unary(expr)
    }
}

impl vstd::std_specs::convert::FromSpecImpl<BinaryExpr> for RawExpr {
    open spec fn obeys_from_spec() -> bool {
        true
    }

    open spec fn from_spec(expr: BinaryExpr) -> RawExpr {
        RawExpr::Binary(expr)
    }
}

impl From<BinaryExpr> for RawExpr {
    fn from(expr: BinaryExpr) -> (r: RawExpr) {
        RawExpr::Binary(expr)
    }
}

impl RawExpr {
    /// An operator node over one expression, with the given type.
    pub fn unary(child: RawExpr, operator: UnaryOp, data_type: NesType) -> (r: Self)
        ensures
            r@ == (ExprModel::Unary { operator, data_type, expr: Box::new(child@) }),
    {
        Self::Unary(UnaryExpr { operator, data_type, expr: Box::new(child) })
    }

    /// An operator node over two expressions, with the given type. The right
    /// operand is given first.
    pub fn binary(rhs: RawExpr, lhs: RawExpr, operator: BinaryOp, data_type: NesType) -> (r: Self)
        ensures
            r@ == (ExprModel::Binary {
                operator,
                data_type,
                lhs: Box::new(lhs@),
                rhs: Box::new(rhs@),
            }),
    {
        Self::Binary(BinaryExpr { operator, data_type, lhs: Box::new(lhs), rhs: Box::new(rhs) })
    }

    /// The type recorded at the root.
    pub fn data_type(&self) -> (r: NesType)
        ensures
            r == self@.data_type(),
    {
        match self {
            RawExpr::Literal(literal) => literal.data_type(),
            RawExpr::Field(field) => field.data_type(),
            RawExpr::Unary(expr) => expr.data_type(),
            RawExpr::Binary(expr) => expr.data_type(),
        }
    }

    /// The type of the root as the operators' rules give it, computed from
    /// the leaves upwards.
    pub fn computed_type(&self) -> (r: NesType)
        ensures
            r == self@.computed_type(),
        decreases self,
    {
        match self {
            RawExpr::Literal(literal) => literal.data_type(),
            RawExpr::Field(field) => field.data_type(),
            RawExpr::Unary(unary) => unary_type(unary.operator, unary.expr.computed_type()),
            RawExpr::Binary(binary) => binary_type(
                binary.operator,
                binary.lhs.computed_type(),
                binary.rhs.computed_type(),
            ),
        }
    }

    /// Whether the expression is a constant.
    pub fn is_literal(&self) -> (r: bool)
        ensures
            r == self@ is Literal,
    {
        match self {
            RawExpr::Literal(_) => true,
            _ => false,
        }
    }

    /// Whether the expression is a field.
    pub fn is_field(&self) -> (r: bool)
        ensures
            r == self@ is Field,
    {
        match self {
            RawExpr::Field(_) => true,
            _ => false,
        }
    }

    /// Whether the expression is a constant or a field.
    pub fn is_leaf(&self) -> (r: bool)
        ensures
            r == self@.is_leaf(),
    {
        match self {
            RawExpr::Literal(_) | RawExpr::Field(_) => true,
            RawExpr::Unary(_) | RawExpr::Binary(_) => false,
        }
    }

    fn leafs_recursive(&self, vec: &mut Vec<RawExpr>)
        ensures
            expr_models(final(vec)@) == expr_models(old(vec)@) + self@.leafs(),
        decreases self,
    {
        match self {
            RawExpr::Literal(_) => {
                vec.push(self.clone());
                assert(expr_models(vec@) =~= expr_models(old(vec)@) + self@.leafs());
            },
            RawExpr::Field(_) => {
                vec.push(self.clone());
                assert(expr_models(vec@) =~= expr_models(old(vec)@) + self@.leafs());
            },
            RawExpr::Unary(unary) => {
                unary.expr.leafs_recursive(vec);
            },
            RawExpr::Binary(binary) => {
                binary.lhs.leafs_recursive(vec);
                binary.rhs.leafs_recursive(vec);
                assert(expr_models(vec@) =~= expr_models(old(vec)@) + self@.leafs());
            },
        }
    }

    /// The constants and fields of the expression, from left to right.
    pub fn leafs(&self) -> (r: Vec<RawExpr>)
        ensures
            expr_models(r@) == self@.leafs(),
    {
        let mut vec = Vec::new();
        self.leafs_recursive(&mut vec);
        assert(expr_models(vec@) =~= self@.leafs());
        vec
    }

    fn leafs_parents_recursive(&self, vec: &mut Vec<RawExpr>)
        ensures
            expr_models(final(vec)@) == expr_models(old(vec)@) + self@.leaf_parents(),
        decreases self,
    {
        match self {
            RawExpr::Unary(unary) => {
                if unary.expr.is_leaf() {
                    vec.push(self.clone());
                }
                let ghost mid = vec@;
                assert(expr_models(mid) =~= expr_models(old(vec)@) + if self@->Unary_expr.is_leaf() {
                    seq![self@]
                } else {
                    Seq::empty()
                });
                unary.expr.leafs_parents_recursive(vec);
                assert(expr_models(vec@) =~= expr_models(old(vec)@) + self@.leaf_parents());
            },
            RawExpr::Binary(binary) => {
                if binary.lhs.is_leaf() || binary.rhs.is_leaf() {
                    vec.push(self.clone());
                }
                let ghost mid = vec@;
                assert(expr_models(mid) =~= expr_models(old(vec)@) + if self@->Binary_lhs.is_leaf()
                    || self@->Binary_rhs.is_leaf() {
                    seq![self@]
                } else {
                    Seq::empty()
                });
                binary.lhs.leafs_parents_recursive(vec);
                binary.rhs.leafs_parents_recursive(vec);
                assert(expr_models(vec@) =~= expr_models(old(vec)@) + self@.leaf_parents());
            },
            _ => {
                assert(expr_models(vec@) =~= expr_models(old(vec)@) + self@.leaf_parents());
            },
        }
    }

    /// The operator nodes with a constant or a field among their operands:
    /// a node first, then those below it, from left to right.
    pub fn leaf_parents(&self) -> (r: Vec<RawExpr>)
        ensures
            expr_models(r@) == self@.leaf_parents(),
    {
        let mut vec = Vec::new();
        self.leafs_parents_recursive(&mut vec);
        assert(expr_models(vec@) =~= self@.leaf_parents());
        vec
    }
}

} // verus!
