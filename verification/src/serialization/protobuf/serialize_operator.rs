//! The operator tree as numbered operator messages.

use crate::expression::field::{Field, FieldModel};
use crate::query::join::Join;
use crate::query::operator::{
    field_models, option_node_count, option_operator_model, FieldMap, Filter, Operator, OperatorModel,
    Projection, Union, Window,
};
use crate::serialization::protobuf::nes::{
    expression_messages, operator_messages, option_details_message, ExpressionMessage,
    OperatorDetails, OperatorDetailsMessage, OperatorMessage, SerializableExpression,
    SerializableOperator,
};
use crate::serialization::protobuf::serialize_expression::{
    serialize_expression, serialize_field, serialize_field_assignment, serialized_expression,
    serialized_field, serialized_field_assignment,
};
use crate::serialization::protobuf::serialize_window::{
    serialize_aggregations, serialize_window_descriptor, serialize_window_keys,
    serialized_aggregations, serialized_window_descriptor, serialized_window_keys, untyped_field,
};
use std::collections::HashMap;
use vstd::prelude::*;

verus! {

broadcast use vstd::std_specs::hash::group_hash_axioms;

/// The messages of a sequence of fields, in order.
pub open spec fn serialized_fields(fields: Seq<FieldModel>) -> Seq<ExpressionMessage> {
    fields.map_values(|f: FieldModel| serialized_field(f))
}

/// What the message of an operator says of the operator itself: the name
/// of a source; the predicate of a filter; the assignment of a map; the
/// fields of a projection; window, aggregations and keys of a window; window
/// and the two fields of a join, with one input on each side.
pub open spec fn serialized_operator_details(op: OperatorModel) -> OperatorDetailsMessage {
    match op {
        OperatorModel::LogicalSource { source_name } => OperatorDetailsMessage::Source {
            logical_source_name: source_name,
        },
        OperatorModel::Projection { fields, .. } => OperatorDetailsMessage::Projection {
            expressions: serialized_fields(fields),
        },
        OperatorModel::Filter { expression, .. } => OperatorDetailsMessage::Filter {
            predicate: serialized_expression(expression),
        },
        OperatorModel::FieldMap { assigned_field, expression, .. } => OperatorDetailsMessage::FieldMap {
            expression: serialized_field_assignment(untyped_field(assigned_field), expression),
        },
        OperatorModel::Window {
            descriptor,
            aggregations,
            key_fields,
            ..
        } => OperatorDetailsMessage::Window {
            window_type: serialized_window_descriptor(descriptor),
            window_aggregations: serialized_aggregations(aggregations),
            keys: match key_fields {
                Some(keys) => serialized_window_keys(keys),
                None => Seq::empty(),
            },
        },
        OperatorModel::Join { lhs, rhs, window, .. } => OperatorDetailsMessage::Join {
            window_type: serialized_window_descriptor(window),
            number_of_input_edges_left: 1,
            number_of_input_edges_right: 1,
            left_source_type: serialized_field(lhs),
            right_source_type: serialized_field(rhs),
        },
        OperatorModel::Union { .. } => OperatorDetailsMessage::Union,
    }
}

/// The identifiers of the inputs of the node that has the identifier `id`:
/// the first input has the next identifier, the second input the one behind
/// the last node of the first input's tree.
pub open spec fn children_ids(op: OperatorModel, id: int) -> Seq<u64> {
    let first = match op.child() {
        Some(_) => seq![(id + 1) as u64],
        None => Seq::empty(),
    };
    let second = match op.second() {
        Some(_) => seq![(id + 1 + option_node_count(op.child())) as u64],
        None => Seq::empty(),
    };
    first + second
}

/// The message of the node that has the identifier `id`.
pub open spec fn operator_message(op: OperatorModel, id: int) -> OperatorMessage {
    OperatorMessage {
        details: Some(serialized_operator_details(op)),
        operator_id: id as u64,
        children_ids: children_ids(op, id),
    }
}

/// The messages of an optional tree.
pub open spec fn option_flattened(op: Option<Box<OperatorModel>>, first_id: int) -> Seq<
    OperatorMessage,
>
    decreases op,
{
    match op {
        Some(op) => flattened(*op, first_id),
        None => Seq::empty(),
    }
}

/// The messages of a tree whose nodes are numbered from `first_id` on in
/// the order in which a walk meets them that visits a node, then the tree of
/// its first input, then the tree of its second input. The message at
/// position `i` has the identifier `first_id + i`.
pub open spec fn flattened(op: OperatorModel, first_id: int) -> Seq<OperatorMessage>
    decreases op,
{
    seq![operator_message(op, first_id)] + match op {
        OperatorModel::LogicalSource { .. } => Seq::empty(),
        OperatorModel::Projection { child, .. } => option_flattened(child, first_id + 1),
        OperatorModel::Filter { child, .. } => option_flattened(child, first_id + 1),
        OperatorModel::FieldMap { child, .. } => option_flattened(child, first_id + 1),
        OperatorModel::Window { child, .. } => option_flattened(child, first_id + 1),
        OperatorModel::Join { joined_operator, child, .. } => option_flattened(child, first_id + 1)
            + flattened(*joined_operator, first_id + 1 + option_node_count(child)),
        OperatorModel::Union { operator, child } => option_flattened(child, first_id + 1)
            + flattened(*operator, first_id + 1 + option_node_count(child)),
    }
}

/// The messages of a sequence by identifier, where the first of them has
/// the identifier `first_id` and each next one the next identifier.
pub open spec fn numbered(messages: Seq<OperatorMessage>, first_id: int) -> Map<u64, OperatorMessage> {
    Map::new(
        |id: u64| first_id <= id < first_id + messages.len(),
        |id: u64| messages[id - first_id],
    )
}

/// The messages of a tree by identifier.
pub open spec fn plan_entries(op: OperatorModel, first_id: int) -> Map<u64, OperatorMessage> {
    numbered(flattened(op, first_id), first_id)
}

/// A tree has as many messages as nodes.
pub proof fn lemma_flattened_len(op: OperatorModel, first_id: int)
    ensures
        flattened(op, first_id).len() == op.node_count(),
    decreases op,
{
    match op {
        OperatorModel::LogicalSource { .. } => {},
        OperatorModel::Projection { child, .. } => {
            lemma_option_flattened_len(child, first_id + 1);
        },
        OperatorModel::Filter { child, .. } => {
            lemma_option_flattened_len(child, first_id + 1);
        },
        OperatorModel::FieldMap { child, .. } => {
            lemma_option_flattened_len(child, first_id + 1);
        },
        OperatorModel::Window { child, .. } => {
            lemma_option_flattened_len(child, first_id + 1);
        },
        OperatorModel::Join { joined_operator, child, .. } => {
            lemma_option_flattened_len(child, first_id + 1);
            lemma_flattened_len(*joined_operator, first_id + 1 + option_node_count(child));
        },
        OperatorModel::Union { operator, child } => {
            lemma_option_flattened_len(child, first_id + 1);
            lemma_flattened_len(*operator, first_id + 1 + option_node_count(child));
        },
    }
}

/// An optional tree has as many messages as nodes.
pub proof fn lemma_option_flattened_len(op: Option<Box<OperatorModel>>, first_id: int)
    ensures
        option_flattened(op, first_id).len() == option_node_count(op),
    decreases op,
{
    match op {
        Some(op) => {
            lemma_flattened_len(*op, first_id);
        },
        None => {},
    }
}

/// The messages of a tree are the message of its root, then the messages
/// of the tree of its first input, then those of the tree of its second
/// input, each tree numbered from the identifier behind what came before.
pub proof fn lemma_flattened_parts(op: OperatorModel, first_id: int)
    ensures
        flattened(op, first_id) == seq![operator_message(op, first_id)] + option_flattened(
            op.child(),
            first_id + 1,
        ) + option_flattened(op.second(), first_id + 1 + option_node_count(op.child())),
{
    let parts = seq![operator_message(op, first_id)] + option_flattened(op.child(), first_id + 1)
        + option_flattened(op.second(), first_id + 1 + option_node_count(op.child()));
    assert(flattened(op, first_id) =~= parts);
}

/// Numbers the nodes of a tree from the counter on and puts their messages
/// into the map: a node gets the next identifier, then the tree of its first
/// input is numbered, then the tree of its second input. Nothing happens
/// where there is no tree. Returns the identifier of the root.
pub fn traverse_operators(
    operator: Option<&Operator>,
    id_counter: &mut u64,
    map: &mut HashMap<u64, SerializableOperator>,
) -> (r: Option<u64>)
    requires
        *old(id_counter) + option_node_count(option_operator_model(operator)) <= u64::MAX,
    ensures
        *final(id_counter) == *old(id_counter) + option_node_count(
            option_operator_model(operator),
        ),
        match operator {
            Some(op) => {
                &&& r == Some(*old(id_counter))
                &&& operator_messages(final(map)@) == operator_messages(
                    old(map)@,
                ).union_prefer_right(plan_entries(op@, *old(id_counter) as int))
            },
            None => r is None && final(map)@ == old(map)@,
        },
{
    match operator {
        Some(op) => Some(traverse_operator(op, id_counter, map)),
        None => None,
    }
}

fn traverse_operator(
    op: &Operator,
    id_counter: &mut u64,
    map: &mut HashMap<u64, SerializableOperator>,
) -> (operator_id: u64)
    requires
        *old(id_counter) + op@.node_count() <= u64::MAX,
    ensures
        operator_id == *old(id_counter),
        *final(id_counter) == *old(id_counter) + op@.node_count(),
        operator_messages(final(map)@) == operator_messages(old(map)@).union_prefer_right(
            plan_entries(op@, *old(id_counter) as int),
        ),
    decreases op,
{
    let operator_id = *id_counter;
    *id_counter += 1;
    let mut child_ids: Vec<u64> = Vec::new();
    let ghost first_id = operator_id as int;
    let ghost child_count = option_node_count(op@.child());
    proof {
        lemma_flattened_parts(op@, first_id);
        lemma_flattened_len(op@, first_id);
        lemma_option_flattened_len(op@.child(), first_id + 1);
        lemma_option_flattened_len(op@.second(), first_id + 1 + child_count);
    }

    match op.child() {
        Some(child) => {
            let id = traverse_operator(child, id_counter, map);
            child_ids.push(id);
        },
        None => {},
    }
    let ghost after_child = map@;
    assert(operator_messages(after_child) == operator_messages(old(map)@).union_prefer_right(
        numbered(option_flattened(op@.child(), first_id + 1), first_id + 1),
    )) by {
        if op@.child() is None {
            assert(operator_messages(old(map)@).union_prefer_right(
                numbered(Seq::<OperatorMessage>::empty(), first_id + 1),
            ) =~= operator_messages(old(map)@));
        }
    }
    let joined_id = match op {
        Operator::Union(u) => Some(traverse_operator(&u.operator, id_counter, map)),
        Operator::Join(j) => Some(traverse_operator(&j.joined_operator, id_counter, map)),
        _ => None,
    };
    if let Some(id) = joined_id {
        child_ids.push(id);
    }
    let ghost after_second = map@;
    assert(operator_messages(after_second) == operator_messages(after_child).union_prefer_right(
        numbered(
            option_flattened(op@.second(), first_id + 1 + child_count),
            first_id + 1 + child_count,
        ),
    )) by {
        if op@.second() is None {
            assert(operator_messages(after_child).union_prefer_right(
                numbered(Seq::<OperatorMessage>::empty(), first_id + 1 + child_count),
            ) =~= operator_messages(after_child));
        }
    }
    assert(child_ids@ =~= children_ids(op@, first_id));

    let serial_op = SerializableOperator {
        details: Some(serialize_operator_details(op)),
        operator_id,
        children_ids: child_ids,
    };
    assert(serial_op@ == operator_message(op@, first_id));
    map.insert(operator_id, serial_op);
    proof {
        let first = option_flattened(op@.child(), first_id + 1);
        let second = option_flattened(op@.second(), first_id + 1 + child_count);
        let all = flattened(op@, first_id);
        let first_entries = numbered(first, first_id + 1);
        let second_entries = numbered(second, first_id + 1 + child_count);
        let entries = plan_entries(op@, first_id);
        assert(all == seq![operator_message(op@, first_id)] + first + second);
        assert(operator_messages(map@) =~= operator_messages(after_second).insert(
            operator_id,
            serial_op@,
        ));
        assert forall|k: u64| #[trigger] entries.contains_key(k) implies entries[k] == if k
            == operator_id {
            serial_op@
        } else if first_entries.contains_key(k) {
            first_entries[k]
        } else {
            second_entries[k]
        } by {
            let i = k - first_id;
            if k == operator_id {
                assert(all[i] == operator_message(op@, first_id));
            } else if first_entries.contains_key(k) {
                assert(all[i] == first[i - 1]);
            } else {
                assert(all[i] == second[i - 1 - child_count]);
            }
        }
        assert(entries.dom() =~= first_entries.dom().union(second_entries.dom()).insert(
            operator_id,
        ));
        assert(operator_messages(map@) =~= operator_messages(old(map)@).union_prefer_right(
            entries,
        ));
    }
    operator_id
}

fn serialize_fields(fields: &Vec<Field>) -> (r: Vec<SerializableExpression>)
    ensures
        expression_messages(r@) == serialized_fields(field_models(fields@)),
{
    let mut result: Vec<SerializableExpression> = Vec::new();
    let mut i: usize = 0;
    while i < fields.len()
        invariant
            i <= fields.len(),
            result@.len() == i,
            forall|j: int| 0 <= j < i ==> (#[trigger] result@[j])@ == serialized_field(fields@[j]@),
        decreases fields.len() - i,
    {
        let message = serialize_field(&fields[i]);
        result.push(message);
        i += 1;
    }
    assert(expression_messages(result@) =~= serialized_fields(
        field_models(fields@),
    ));
    result
}

fn serialize_operator_details(operator: &Operator) -> (r: OperatorDetails)
    ensures
        r@ == serialized_operator_details(operator@),
{
    match operator {
        Operator::LogicalSource { source_name } => logical_source_details(source_name),
        Operator::Projection(projection) => projection_details(projection),
        Operator::Filter(filter) => filter_details(filter),
        Operator::FieldMap(map) => map_details(map),
        Operator::Window(window) => window_details(window),
        Operator::Join(join) => join_details(join),
        Operator::Union(_) => OperatorDetails::Union,
    }
}

fn logical_source_details(source_name: &String) -> (r: OperatorDetails)
    ensures
        r@ == (OperatorDetailsMessage::Source { logical_source_name: source_name@ }),
{
    OperatorDetails::Source { logical_source_name: source_name.clone() }
}

fn projection_details(projection: &Projection) -> (r: OperatorDetails)
    ensures
        r@ == (OperatorDetailsMessage::Projection {
            expressions: serialized_fields(field_models(projection.fields@)),
        }),
{
    OperatorDetails::Projection { expressions: serialize_fields(&projection.fields) }
}

fn filter_details(filter: &Filter) -> (r: OperatorDetails)
    ensures
        r@ == (OperatorDetailsMessage::Filter {
            predicate: serialized_expression(filter.expression@),
        }),
{
    OperatorDetails::Filter { predicate: serialize_expression(&filter.expression.0) }
}

fn map_details(map: &FieldMap) -> (r: OperatorDetails)
    ensures
        r@ == (OperatorDetailsMessage::FieldMap {
            expression: serialized_field_assignment(
                untyped_field(map.assigned_field@),
                map.expression@,
            ),
        }),
{
    let field = Field::from(map.assigned_field.as_str());
    OperatorDetails::FieldMap { expression: serialize_field_assignment(&field, &map.expression.0) }
}

fn window_details(window: &Window) -> (r: OperatorDetails)
    ensures
        r@ == serialized_operator_details(Operator::Window(*window)@),
{
    let keys = match &window.key_fields {
        Some(keys) => serialize_window_keys(keys.as_slice()),
        None => Vec::new(),
    };
    assert(window.key_fields is None ==> expression_messages(keys@) =~= Seq::empty());
    OperatorDetails::Window {
        window_type: serialize_window_descriptor(&window.descriptor),
        window_aggregations: serialize_aggregations(window.aggregations.as_slice()),
        keys,
    }
}

fn join_details(join: &Join) -> (r: OperatorDetails)
    ensures
        r@ == serialized_operator_details(Operator::Join(*join)@),
{
    OperatorDetails::Join {
        window_type: serialize_window_descriptor(&join.window),
        number_of_input_edges_left: 1,
        number_of_input_edges_right: 1,
        left_source_type: serialize_field(&join.lhs),
        right_source_type: serialize_field(&join.rhs),
    }
}

/// An operator message under construction.
#[derive(Debug)]
pub struct SerializableOperatorBuilder {
    details: Option<OperatorDetails>,
    operator_id: Option<u64>,
    children_ids: Vec<u64>,
}

/// What a [`SerializableOperatorBuilder`] stands for.
pub ghost struct OperatorBuilderModel {
    pub details: Option<OperatorDetailsMessage>,
    pub operator_id: Option<u64>,
    pub children_ids: Seq<u64>,
}

impl View for SerializableOperatorBuilder {
    type V = OperatorBuilderModel;

    closed spec fn view(&self) -> OperatorBuilderModel {
        OperatorBuilderModel {
            details: option_details_message(self.details),
            operator_id: self.operator_id,
            children_ids: self.children_ids@,
        }
    }
}

impl Default for SerializableOperatorBuilder {
    fn default() -> (r: Self)
        ensures
            r@ == (OperatorBuilderModel {
                details: None,
                operator_id: None,
                children_ids: Seq::empty(),
            }),
    {
        Self { details: None, operator_id: None, children_ids: Vec::new() }
    }
}

impl SerializableOperatorBuilder {
    /// A builder that holds nothing yet.
    pub fn new() -> (r: Self)
        ensures
            r@ == (OperatorBuilderModel {
                details: None,
                operator_id: None,
                children_ids: Seq::empty(),
            }),
    {
        Self { details: None, operator_id: None, children_ids: Vec::new() }
    }

    /// Sets what the operator does.
    pub fn details(self, details: OperatorDetails) -> (r: Self)
        ensures
            r@ == (OperatorBuilderModel { details: Some(details@), ..self@ }),
    {
        let mut builder = self;
        builder.details = Some(details);
        builder
    }

    /// Sets the identifier of the operator.
    pub fn operator_id(self, id: u64) -> (r: Self)
        ensures
            r@ == (OperatorBuilderModel { operator_id: Some(id), ..self@ }),
    {
        let mut builder = self;
        builder.operator_id = Some(id);
        builder
    }

    /// Adds the identifier of one more input behind those added before.
    pub fn add_child_id(self, id: u64) -> (r: Self)
        ensures
            r@ == (OperatorBuilderModel { children_ids: self@.children_ids.push(id), ..self@ }),
    {
        let mut builder = self;
        builder.children_ids.push(id);
        builder
    }

    /// The message that was built. The identifier must have been set.
    pub fn build(self) -> (r: SerializableOperator)
        requires
            self@.operator_id is Some,
        ensures
            r@ == (OperatorMessage {
                details: self@.details,
                operator_id: self@.operator_id.unwrap(),
                children_ids: self@.children_ids,
            }),
    {
        SerializableOperator {
            details: self.details,
            operator_id: self.operator_id.unwrap(),
            children_ids: self.children_ids,
        }
    }
}

} // verus!
