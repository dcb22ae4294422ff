//! The operator tree of a query.

use crate::expression::expression::ExprModel;
use crate::expression::field::{Field, FieldModel};
use crate::expression::{ArithmeticExpr, LogicalExpr};
use crate::query::join::Join;
use crate::query::window::aggregation::{Aggregation, AggregationModel};
use crate::query::window::window_descriptor::{WindowDescriptor, WindowDescriptorModel};
use vstd::prelude::*;

verus! {

/// Keeps the events for which the expression holds.
#[derive(Debug)]
pub struct Filter {
    pub expression: LogicalExpr,
    pub child: Option<Box<Operator>>,
}

/// Writes the value of the expression to a field of each event.
#[derive(Debug)]
pub struct FieldMap {
    pub assigned_field: String,
    pub expression: ArithmeticExpr,
    pub child: Option<Box<Operator>>,
}

/// Cuts the stream into windows and folds each window by the aggregations,
/// one result for each value of the key fields.
#[derive(Debug)]
pub struct Window {
    pub descriptor: WindowDescriptor,
    pub aggregations: Vec<Aggregation>,
    pub key_fields: Option<Vec<String>>,
    pub child: Option<Box<Operator>>,
}

/// Merges the stream of a second operator tree into the stream.
#[derive(Debug)]
pub struct Union {
    pub operator: Box<Operator>,
    pub child: Option<Box<Operator>>,
}

/// Keeps the given fields of each event.
#[derive(Debug)]
pub struct Projection {
    pub fields: Vec<Field>,
    pub child: Option<Box<Operator>>,
}

/// A node of the operator tree. Every node but a source has one input, its
/// child; a join and a union have a second input, an operator tree of their
/// own.
#[derive(Debug)]
pub enum Operator {
    LogicalSource { source_name: String },
    Projection(Projection),
    Filter(Filter),
    FieldMap(FieldMap),
    Window(Window),
    Join(Join),
    Union(Union),
}

/// What an [`Operator`] stands for: the same tree over texts and sequences.
#[allow(inconsistent_fields)]
pub ghost enum OperatorModel {
    LogicalSource { source_name: Seq<char> },
    Projection { fields: Seq<FieldModel>, child: Option<Box<OperatorModel>> },
    Filter { expression: ExprModel, child: Option<Box<OperatorModel>> },
    FieldMap { assigned_field: Seq<char>, expression: ExprModel, child: Option<Box<OperatorModel>> },
    Window {
        descriptor: WindowDescriptorModel,
        aggregations: Seq<AggregationModel>,
        key_fields: Option<Seq<Seq<char>>>,
        child: Option<Box<OperatorModel>>,
    },
    Join {
        lhs: FieldModel,
        rhs: FieldModel,
        window: WindowDescriptorModel,
        joined_operator: Box<OperatorModel>,
        child: Option<Box<OperatorModel>>,
    },
    Union { operator: Box<OperatorModel>, child: Option<Box<OperatorModel>> },
}

/// What a sequence of fields stands for.
pub open spec fn field_models(fields: Seq<Field>) -> Seq<FieldModel> {
    fields.map_values(|f: Field| f@)
}

/// What a sequence of aggregations stands for.
pub open spec fn aggregation_models(aggregations: Seq<Aggregation>) -> Seq<AggregationModel> {
    aggregations.map_values(|a: Aggregation| a@)
}

/// The texts of a sequence of strings.
pub open spec fn texts(strings: Seq<String>) -> Seq<Seq<char>> {
    strings.map_values(|s: String| s@)
}

/// The texts of an optional list of strings.
pub open spec fn option_texts(strings: Option<Vec<String>>) -> Option<Seq<Seq<char>>> {
    match strings {
        Some(strings) => Some(texts(strings@)),
        None => None,
    }
}

/// The tree that an operator stands for.
pub open spec fn operator_model(op: Operator) -> OperatorModel
    decreases op,
{
    match op {
        Operator::LogicalSource { source_name } => OperatorModel::LogicalSource {
            source_name: source_name@,
        },
        Operator::Projection(p) => OperatorModel::Projection {
            fields: field_models(p.fields@),
            child: match p.child {
                Some(child) => Some(Box::new(operator_model(*child))),
                None => None,
            },
        },
        Operator::Filter(f) => OperatorModel::Filter {
            expression: f.expression@,
            child: match f.child {
                Some(child) => Some(Box::new(operator_model(*child))),
                None => None,
            },
        },
        Operator::FieldMap(m) => OperatorModel::FieldMap {
            assigned_field: m.assigned_field@,
            expression: m.expression@,
            child: match m.child {
                Some(child) => Some(Box::new(operator_model(*child))),
                None => None,
            },
        },
        Operator::Window(w) => OperatorModel::Window {
            descriptor: w.descriptor@,
            aggregations: aggregation_models(w.aggregations@),
            key_fields: option_texts(w.key_fields),
            child: match w.child {
                Some(child) => Some(Box::new(operator_model(*child))),
                None => None,
            },
        },
        Operator::Join(j) => OperatorModel::Join {
            lhs: j.lhs@,
            rhs: j.rhs@,
            window: j.window@,
            joined_operator: Box::new(operator_model(*j.joined_operator)),
            child: match j.child {
                Some(child) => Some(Box::new(operator_model(*child))),
                None => None,
            },
        },
        Operator::Union(u) => OperatorModel::Union {
            operator: Box::new(operator_model(*u.operator)),
            child: match u.child {
                Some(child) => Some(Box::new(operator_model(*child))),
                None => None,
            },
        },
    }
}

/// The tree that an optional child stands for.
pub open spec fn child_model(child: Option<Box<Operator>>) -> Option<Box<OperatorModel>> {
    match child {
        Some(child) => Some(Box::new(operator_model(*child))),
        None => None,
    }
}

impl View for Operator {
    type V = OperatorModel;

    open spec fn view(&self) -> OperatorModel {
        operator_model(*self)
    }
}

/// The number of nodes of an optional tree.
pub open spec fn option_node_count(op: Option<Box<OperatorModel>>) -> nat
    decreases op,
{
    match op {
        Some(op) => op.node_count(),
        None => 0,
    }
}

/// The chain of first inputs below an optional node.
pub open spec fn option_chain(op: Option<Box<OperatorModel>>) -> Seq<OperatorModel>
    decreases op,
{
    match op {
        Some(op) => op.chain(),
        None => Seq::empty(),
    }
}

impl OperatorModel {
    /// The first input of the node.
    pub open spec fn child(self) -> Option<Box<OperatorModel>> {
        match self {
            OperatorModel::LogicalSource { .. } => None,
            OperatorModel::Projection { child, .. } => child,
            OperatorModel::Filter { child, .. } => child,
            OperatorModel::FieldMap { child, .. } => child,
            OperatorModel::Window { child, .. } => child,
            OperatorModel::Join { child, .. } => child,
            OperatorModel::Union { child, .. } => child,
        }
    }

    /// The second input of a join or a union.
    pub open spec fn second(self) -> Option<Box<OperatorModel>> {
        match self {
            OperatorModel::Join { joined_operator, .. } => Some(joined_operator),
            OperatorModel::Union { operator, .. } => Some(operator),
            _ => None,
        }
    }

    /// Whether every branch of the tree ends in a source: every node but a
    /// source has a first input, down to the sources, in the trees of second
    /// inputs too.
    pub open spec fn ends_in_sources(self) -> bool
        decreases self,
    {
        match self {
            OperatorModel::LogicalSource { .. } => true,
            OperatorModel::Projection { child, .. } => match child {
                Some(child) => child.ends_in_sources(),
                None => false,
            },
            OperatorModel::Filter { child, .. } => match child {
                Some(child) => child.ends_in_sources(),
                None => false,
            },
            OperatorModel::FieldMap { child, .. } => match child {
                Some(child) => child.ends_in_sources(),
                None => false,
            },
            OperatorModel::Window { child, .. } => match child {
                Some(child) => child.ends_in_sources(),
                None => false,
            },
            OperatorModel::Join { joined_operator, child, .. } => joined_operator.ends_in_sources()
                && match child {
                Some(child) => child.ends_in_sources(),
                None => false,
            },
            OperatorModel::Union { operator, child } => operator.ends_in_sources() && match child {
                Some(child) => child.ends_in_sources(),
                None => false,
            },
        }
    }

    /// The number of nodes of the tree, second inputs included.
    pub open spec fn node_count(self) -> nat
        decreases self,
    {
        match self {
            OperatorModel::LogicalSource { .. } => 1,
            OperatorModel::Projection { child, .. } => 1 + option_node_count(child),
            OperatorModel::Filter { child, .. } => 1 + option_node_count(child),
            OperatorModel::FieldMap { child, .. } => 1 + option_node_count(child),
            OperatorModel::Window { child, .. } => 1 + option_node_count(child),
            OperatorModel::Join { joined_operator, child, .. } => 1 + option_node_count(child)
                + joined_operator.node_count(),
            OperatorModel::Union { operator, child } => 1 + option_node_count(child)
                + operator.node_count(),
        }
    }

    /// The node, then its first input, then the first input of that, down to
    /// the node that has none. Second inputs are not on the chain.
    pub open spec fn chain(self) -> Seq<OperatorModel>
        decreases self,
    {
        seq![self] + match self {
            OperatorModel::LogicalSource { .. } => Seq::empty(),
            OperatorModel::Projection { child, .. } => option_chain(child),
            OperatorModel::Filter { child, .. } => option_chain(child),
            OperatorModel::FieldMap { child, .. } => option_chain(child),
            OperatorModel::Window { child, .. } => option_chain(child),
            OperatorModel::Join { child, .. } => option_chain(child),
            OperatorModel::Union { child, .. } => option_chain(child),
        }
    }
}

/// The chain of first inputs is the node and then the chain of its first
/// input.
pub proof fn lemma_chain_parts(op: OperatorModel)
    ensures
        op.chain() == seq![op] + option_chain(op.child()),
{
    reveal_with_fuel(option_chain, 2);
    reveal_with_fuel(OperatorModel::chain, 2);
}

/// In a tree whose branches end in sources, the chain of first inputs ends
/// in a source, and no node of the chain before the last is one.
pub proof fn lemma_chain_ends_in_source(op: OperatorModel)
    requires
        op.ends_in_sources(),
    ensures
        op.chain().len() > 0,
        op.chain().last() is LogicalSource,
        forall|i: int| 0 <= i < op.chain().len() - 1 ==> !(#[trigger] op.chain()[i] is LogicalSource),
    decreases op,
{
    lemma_chain_parts(op);
    match op.child() {
        Some(child) => {
            lemma_chain_ends_in_source(*child);
            let rest = child.chain();
            assert(op.chain() == seq![op] + rest);
            assert(op.chain().last() == rest.last());
            assert forall|i: int| 0 <= i < op.chain().len() - 1 implies !(#[trigger] op.chain()[i]
                is LogicalSource) by {
                if i > 0 {
                    assert(op.chain()[i] == rest[i - 1]);
                }
            }
        },
        None => {},
    }
}

/// A tree has one node more than the trees of its two inputs together.
pub proof fn lemma_node_count_parts(op: OperatorModel)
    ensures
        op.node_count() == 1 + option_node_count(op.child()) + option_node_count(op.second()),
{
    reveal_with_fuel(option_node_count, 2);
    reveal_with_fuel(OperatorModel::node_count, 2);
}

fn clone_fields(fields: &Vec<Field>) -> (r: Vec<Field>)
    ensures
        field_models(r@) == field_models(fields@),
{
    let mut result: Vec<Field> = Vec::new();
    let mut i: usize = 0;
    while i < fields.len()
        invariant
            i <= fields.len(),
            result@.len() == i,
            forall|j: int| 0 <= j < i ==> (#[trigger] result@[j])@ == fields@[j]@,
        decreases fields.len() - i,
    {
        result.push(fields[i].clone());
        i += 1;
    }
    assert(field_models(result@) =~= field_models(fields@));
    result
}

fn clone_aggregations(aggregations: &Vec<Aggregation>) -> (r: Vec<Aggregation>)
    ensures
        aggregation_models(r@) == aggregation_models(aggregations@),
{
    let mut result: Vec<Aggregation> = Vec::new();
    let mut i: usize = 0;
    while i < aggregations.len()
        invariant
            i <= aggregations.len(),
            result@.len() == i,
            forall|j: int| 0 <= j < i ==> (#[trigger] result@[j])@ == aggregations@[j]@,
        decreases aggregations.len() - i,
    {
        result.push(aggregations[i].clone());
        i += 1;
    }
    assert(aggregation_models(result@) =~= aggregation_models(aggregations@));
    result
}

fn clone_keys(keys: &Option<Vec<String>>) -> (r: Option<Vec<String>>)
    ensures
        option_texts(r) == option_texts(*keys),
{
    match keys {
        Some(keys) => {
            let mut result: Vec<String> = Vec::new();
            let mut i: usize = 0;
            while i < keys.len()
                invariant
                    i <= keys.len(),
                    result@.len() == i,
                    forall|j: int| 0 <= j < i ==> (#[trigger] result@[j])@ == keys@[j]@,
                decreases keys.len() - i,
            {
                result.push(keys[i].clone());
                i += 1;
            }
            assert(texts(result@) =~= texts(keys@));
            Some(result)
        },
        None => None,
    }
}

fn clone_child(child: &Option<Box<Operator>>) -> (r: Option<Box<Operator>>)
    ensures
        child_model(r) == child_model(*child),
    decreases child,
{
    match child {
        Some(child) => Some(Box::new(clone_operator(child))),
        None => None,
    }
}

fn clone_operator(op: &Operator) -> (r: Operator)
    ensures
        r@ == op@,
    decreases op,
{
    match op {
        Operator::LogicalSource { source_name } => Operator::LogicalSource {
            source_name: source_name.clone(),
        },
        Operator::Projection(p) => Operator::Projection(
            Projection { fields: clone_fields(&p.fields), child: clone_child(&p.child) },
        ),
        Operator::Filter(f) => Operator::Filter(
            Filter { expression: f.expression.clone(), child: clone_child(&f.child) },
        ),
        Operator::FieldMap(m) => Operator::FieldMap(
            FieldMap {
                assigned_field: m.assigned_field.clone(),
                expression: m.expression.clone(),
                child: clone_child(&m.child),
            },
        ),
        Operator::Window(w) => Operator::Window(
            Window {
                descriptor: w.descriptor.clone(),
                aggregations: clone_aggregations(&w.aggregations),
                key_fields: clone_keys(&w.key_fields),
                child: clone_child(&w.child),
            },
        ),
        Operator::Join(j) => Operator::Join(
            Join {
                lhs: j.lhs.clone(),
                rhs: j.rhs.clone(),
                window: j.window.clone(),
                joined_operator: Box::new(clone_operator(&j.joined_operator)),
                child: clone_child(&j.child),
            },
        ),
        Operator::Union(u) => Operator::Union(
            Union {
                operator: Box::new(clone_operator(&u.operator)),
                child: clone_child(&u.child),
            },
        ),
    }
}

impl Clone for Operator {
    fn clone(&self) -> (r: Self)
        ensures
            r@ == self@,
    {
        clone_operator(self)
    }
}

/// What an optional reference to an operator stands for.
pub open spec fn option_operator_model(op: Option<&Operator>) -> Option<Box<OperatorModel>> {
    match op {
        Some(op) => Some(Box::new(op@)),
        None => None,
    }
}

fn child_ref(child: &Option<Box<Operator>>) -> (r: Option<&Operator>)
    ensures
        option_operator_model(r) == child_model(*child),
        r is Some ==> *r.unwrap() == *child->Some_0,
        r is Some == child is Some,
{
    match child {
        Some(child) => Some(&**child),
        None => None,
    }
}

impl Operator {
    /// The first input of the node. A source has none.
    pub fn child(&self) -> (r: Option<&Operator>)
        ensures
            option_operator_model(r) == self@.child(),
            r is Some ==> decreases_to!(*self => *r.unwrap()),
    {
        match self {
            Operator::LogicalSource { .. } => None,
            Operator::Projection(Projection { child, .. }) => child_ref(child),
            Operator::Filter(Filter { child, .. }) => child_ref(child),
            Operator::FieldMap(FieldMap { child, .. }) => child_ref(child),
            Operator::Window(Window { child, .. }) => child_ref(child),
            Operator::Join(Join { child, .. }) => child_ref(child),
            Operator::Union(Union { child, .. }) => child_ref(child),
        }
    }

    /// Whether the node has a first input.
    pub fn has_child(&self) -> (r: bool)
        ensures
            r == self@.child() is Some,
    {
        self.child().is_some()
    }

    /// The number of nodes of the tree, second inputs included, where a
    /// 64-bit number can hold it.
    pub fn node_count(&self) -> (r: Option<u64>)
        ensures
            r is Some == (self@.node_count() <= u64::MAX),
            r is Some ==> r.unwrap() == self@.node_count(),
        decreases self,
    {
        proof {
            lemma_node_count_parts(self@);
        }
        let below: Option<u64> = match self.child() {
            Some(child) => child.node_count(),
            None => Some(0),
        };
        let beside: Option<u64> = match self {
            Operator::Join(join) => join.joined_operator.node_count(),
            Operator::Union(union) => union.operator.node_count(),
            _ => Some(0),
        };
        match (below, beside) {
            (Some(below), Some(beside)) => match below.checked_add(beside) {
                Some(inputs) => inputs.checked_add(1),
                None => None,
            },
            _ => None,
        }
    }

    /// A walk along the chain of first inputs, starting at this node.
    pub fn iter(&self) -> (r: OperatorIterator<'_>)
        ensures
            r@ == self@.chain(),
    {
        OperatorIterator { current: Some(self) }
    }
}

/// A walk along the chain of first inputs of an operator tree.
pub struct OperatorIterator<'a> {
    current: Option<&'a Operator>,
}

impl<'a> View for OperatorIterator<'a> {
    type V = Seq<OperatorModel>;

    /// The nodes that the walk has yet to give, in order.
    closed spec fn view(&self) -> Seq<OperatorModel> {
        option_chain(option_operator_model(self.current))
    }
}

impl<'a> OperatorIterator<'a> {
    /// The next node of the chain, or nothing once the chain has ended.
    pub fn next(&mut self) -> (r: Option<&'a Operator>)
        ensures
            old(self)@.len() == 0 ==> r is None && final(self)@ == old(self)@,
            old(self)@.len() > 0 ==> r is Some && r.unwrap()@ == old(self)@[0] && final(self)@
                == old(self)@.drop_first(),
    {
        let current = self.current;
        match current {
            Some(op) => {
                self.current = op.child();
                assert(self@ =~= old(self)@.drop_first());
            },
            None => {},
        }
        current
    }
}

} // verus!
