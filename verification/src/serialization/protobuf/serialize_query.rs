//! A query as a query plan.

use crate::query::operator::{option_node_count, OperatorModel};
use crate::query::query::{Query, QueryModel};
use crate::serialization::protobuf::nes::{
    operator_messages, OperatorDetails, OperatorDetailsMessage, OperatorMessage,
    QueryPlanMessage, SerializableOperator, SerializableQueryPlan,
};
use crate::serialization::protobuf::serialize_operator::{
    flattened, lemma_flattened_len, lemma_flattened_parts, lemma_option_flattened_len,
    option_flattened, plan_entries, traverse_operators,
    SerializableOperatorBuilder,
};
use crate::serialization::protobuf::serialize_sink::{
    serialize_sink_details, serialized_sink_details,
};
use std::collections::HashMap;
use vstd::prelude::*;

verus! {

broadcast use vstd::std_specs::hash::group_hash_axioms;

/// The message of the sink of a query: it has the identifier behind the
/// last node of the operator tree, and its one input is the root of the
/// tree, which has the identifier 0.
pub open spec fn sink_message(query: QueryModel) -> OperatorMessage {
    OperatorMessage {
        details: Some(OperatorDetailsMessage::Sink(serialized_sink_details(query.sink))),
        operator_id: query.operator.node_count() as u64,
        children_ids: seq![0u64],
    }
}

/// The plan of a query: the messages of its operator tree, numbered from 0
/// on, and the message of its sink, which is the one root of the plan.
pub open spec fn serialized_query(query: QueryModel) -> QueryPlanMessage {
    let sink_id = query.operator.node_count() as u64;
    QueryPlanMessage {
        operator_map: plan_entries(query.operator, 0).insert(sink_id, sink_message(query)),
        root_operator_ids: seq![sink_id],
    }
}

/// Whether the nodes of the query and its sink can be numbered by 64-bit
/// identifiers.
pub open spec fn fits_identifiers(query: QueryModel) -> bool {
    query.operator.node_count() < u64::MAX
}

/// Turns a query into its plan.
pub fn serialize_query(query: &Query) -> (r: SerializableQueryPlan)
    requires
        fits_identifiers(query@),
    ensures
        r@ == serialized_query(query@),
{
    let mut id: u64 = 0;
    let mut operator_map: HashMap<u64, SerializableOperator> = HashMap::new();
    traverse_operators(Some(query.operator()), &mut id, &mut operator_map);
    let sink_id = id;
    let serial_sink = SerializableOperatorBuilder::new().details(
        OperatorDetails::Sink(serialize_sink_details(query.sink())),
    ).operator_id(sink_id).add_child_id(0).build();
    assert(serial_sink@.children_ids =~= seq![0u64]);
    let ghost before = operator_map@;
    operator_map.insert(sink_id, serial_sink);
    let mut root_operator_ids: Vec<u64> = Vec::new();
    root_operator_ids.push(sink_id);
    proof {
        assert(operator_messages(before) =~= plan_entries(query@.operator, 0));
        assert(operator_messages(operator_map@) =~= operator_messages(before).insert(
            sink_id,
            serial_sink@,
        ));
        assert(root_operator_ids@ =~= seq![sink_id]);
    }
    SerializableQueryPlan { operator_map, root_operator_ids }
}

/// Turns a query into its plan, where its nodes and its sink can be
/// numbered by 64-bit identifiers, and into nothing where they cannot.
pub fn try_serialize_query(query: &Query) -> (r: Option<SerializableQueryPlan>)
    ensures
        r is Some == fits_identifiers(query@),
        r is Some ==> r.unwrap()@ == serialized_query(query@),
{
    match query.operator().node_count() {
        Some(count) => {
            if count < u64::MAX {
                Some(serialize_query(query))
            } else {
                None
            }
        },
        None => None,
    }
}

/// The plan of a query depends on nothing but the query: two queries that
/// stand for the same tree and sink have the same plan.
pub proof fn lemma_serialization_deterministic(first: Query, second: Query)
    requires
        first@ == second@,
    ensures
        serialized_query(first@) == serialized_query(second@),
{
}

/// The plan of a query has one message for each node and one for the sink,
/// under the identifiers from 0 to the number of nodes, and each message
/// carries the identifier that it stands under.
pub proof fn lemma_plan_identifiers(query: QueryModel)
    requires
        fits_identifiers(query),
    ensures
        forall|id: u64|
            serialized_query(query).operator_map.contains_key(id) <==> id
                <= query.operator.node_count(),
        forall|id: u64|
            id <= query.operator.node_count() ==> (#[trigger] serialized_query(
                query,
            ).operator_map[id]).operator_id == id,
        serialized_query(query).operator_map.dom().finite(),
        serialized_query(query).operator_map.dom().len() == query.operator.node_count() + 1,
{
    let plan = serialized_query(query);
    let n = query.operator.node_count();
    lemma_flattened_len(query.operator, 0);
    lemma_message_identifiers(query.operator, 0);
    assert forall|id: u64| id <= n implies (#[trigger] plan.operator_map[id]).operator_id == id by {
        if id < n {
            assert(plan.operator_map[id] == flattened(query.operator, 0)[id as int]);
        }
    }
    lemma_identifier_set(n + 1);
    assert(plan.operator_map.dom() =~= identifiers_below(n + 1));
}

/// The identifiers below a bound.
pub open spec fn identifiers_below(bound: nat) -> Set<u64> {
    Set::new(|id: u64| id < bound)
}

proof fn lemma_identifier_set(bound: nat)
    requires
        bound <= u64::MAX + 1,
    ensures
        identifiers_below(bound).finite(),
        identifiers_below(bound).len() == bound,
    decreases bound,
{
    if bound == 0 {
        assert(identifiers_below(bound) =~= Set::<u64>::empty());
    } else {
        lemma_identifier_set((bound - 1) as nat);
        assert(identifiers_below(bound) =~= identifiers_below((bound - 1) as nat).insert(
            (bound - 1) as u64,
        ));
    }
}

/// The message at position `i` of a numbered tree carries the identifier
/// `first_id + i`.
pub proof fn lemma_message_identifiers(op: OperatorModel, first_id: int)
    requires
        0 <= first_id,
        first_id + op.node_count() <= u64::MAX,
    ensures
        forall|i: int|
            0 <= i < flattened(op, first_id).len() ==> (#[trigger] flattened(
                op,
                first_id,
            )[i]).operator_id == first_id + i,
    decreases op,
{
    lemma_flattened_parts(op, first_id);
    lemma_flattened_len(op, first_id);
    let child_count = option_node_count(op.child());
    lemma_option_flattened_len(op.child(), first_id + 1);
    lemma_option_flattened_len(op.second(), first_id + 1 + child_count);
    match op.child() {
        Some(child) => {
            lemma_message_identifiers(*child, first_id + 1);
        },
        None => {},
    }
    match op.second() {
        Some(second) => {
            lemma_message_identifiers(*second, first_id + 1 + child_count);
        },
        None => {},
    }
    let first = option_flattened(op.child(), first_id + 1);
    let second = option_flattened(op.second(), first_id + 1 + child_count);
    assert forall|i: int| 0 <= i < flattened(op, first_id).len() implies (#[trigger] flattened(
        op,
        first_id,
    )[i]).operator_id == first_id + i by {
        if i == 0 {
        } else if i < 1 + child_count {
            assert(flattened(op, first_id)[i] == first[i - 1]);
        } else {
            assert(flattened(op, first_id)[i] == second[i - 1 - child_count]);
        }
    }
}

} // verus!
