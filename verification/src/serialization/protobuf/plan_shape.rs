//! The shape of an operator tree, read back from its plan.

use crate::query::operator::{lemma_node_count_parts, option_node_count, OperatorModel};
use crate::query::query::QueryModel;
use crate::serialization::protobuf::nes::OperatorMessage;
use crate::serialization::protobuf::serialize_operator::{
    children_ids, flattened, lemma_flattened_len, lemma_flattened_parts,
    lemma_option_flattened_len, operator_message, option_flattened, plan_entries,
};
use crate::serialization::protobuf::serialize_query::{fits_identifiers, serialized_query};
use vstd::prelude::*;

verus! {

/// The shape of a tree: for each node the shapes of the trees of its inputs,
/// in order.
pub ghost struct Shape {
    pub inputs: Seq<Shape>,
}

/// The shapes of the trees of an optional node: one or none.
pub open spec fn option_shapes(op: Option<Box<OperatorModel>>) -> Seq<Shape>
    decreases op,
{
    match op {
        Some(op) => seq![operator_shape(*op)],
        None => Seq::empty(),
    }
}

/// The shape of an operator tree: the first input of a node comes before
/// its second input.
pub open spec fn operator_shape(op: OperatorModel) -> Shape
    decreases op,
{
    Shape {
        inputs: match op {
            OperatorModel::LogicalSource { .. } => Seq::empty(),
            OperatorModel::Projection { child, .. } => option_shapes(child),
            OperatorModel::Filter { child, .. } => option_shapes(child),
            OperatorModel::FieldMap { child, .. } => option_shapes(child),
            OperatorModel::Window { child, .. } => option_shapes(child),
            OperatorModel::Join { joined_operator, child, .. } => option_shapes(child)
                + seq![operator_shape(*joined_operator)],
            OperatorModel::Union { operator, child } => option_shapes(child) + seq![
                operator_shape(*operator),
            ],
        },
    }
}

/// The shape that a map of operator messages gives to the operator with the
/// identifier `id`: the shapes of the operators that its message names as its
/// inputs, in order. The walk goes `depth` messages deep; an operator beyond
/// that, or one that the map does not hold, counts as one without inputs.
pub open spec fn plan_shape(operators: Map<u64, OperatorMessage>, id: u64, depth: nat) -> Shape
    decreases depth,
{
    if depth == 0 || !operators.contains_key(id) {
        Shape { inputs: Seq::empty() }
    } else {
        let inputs = operators[id].children_ids;
        Shape {
            inputs: Seq::new(
                inputs.len(),
                |i: int| plan_shape(operators, inputs[i], (depth - 1) as nat),
            ),
        }
    }
}

/// Whether the map holds the messages of the tree numbered from `first_id`
/// on.
pub open spec fn holds_tree(
    operators: Map<u64, OperatorMessage>,
    op: OperatorModel,
    first_id: int,
) -> bool {
    forall|id: u64| #[trigger]
        plan_entries(op, first_id).contains_key(id) ==> operators.contains_key(id) && operators[id]
            == plan_entries(op, first_id)[id]
}

/// A map that holds the messages of a numbered tree gives the root of the
/// tree the shape of the tree.
pub proof fn lemma_plan_shape(
    operators: Map<u64, OperatorMessage>,
    op: OperatorModel,
    first_id: int,
    depth: nat,
)
    requires
        0 <= first_id,
        first_id + op.node_count() <= u64::MAX,
        holds_tree(operators, op, first_id),
        depth >= op.node_count(),
    ensures
        plan_shape(operators, first_id as u64, depth) == operator_shape(op),
    decreases op,
{
    let child_count = option_node_count(op.child());
    let second_id = first_id + 1 + child_count;
    lemma_node_count_parts(op);
    lemma_flattened_parts(op, first_id);
    lemma_flattened_len(op, first_id);
    lemma_option_flattened_len(op.child(), first_id + 1);
    lemma_option_flattened_len(op.second(), second_id);
    let all = flattened(op, first_id);
    let first = option_flattened(op.child(), first_id + 1);
    let second = option_flattened(op.second(), second_id);
    let entries = plan_entries(op, first_id);
    assert(entries.contains_key(first_id as u64));
    assert(all[0] == operator_message(op, first_id));
    assert(operators[first_id as u64].children_ids == children_ids(op, first_id));
    match op.child() {
        Some(child) => {
            assert(first == flattened(*child, first_id + 1));
            assert forall|id: u64| #[trigger]
                plan_entries(*child, first_id + 1).contains_key(id) implies operators.contains_key(
                id,
            ) && operators[id] == plan_entries(*child, first_id + 1)[id] by {
                assert(entries.contains_key(id));
                assert(all[id - first_id] == first[id - first_id - 1]);
            }
            lemma_plan_shape(operators, *child, first_id + 1, (depth - 1) as nat);
        },
        None => {},
    }
    match op.second() {
        Some(beside) => {
            assert(second == flattened(*beside, second_id));
            assert forall|id: u64| #[trigger]
                plan_entries(*beside, second_id).contains_key(id) implies operators.contains_key(
                id,
            ) && operators[id] == plan_entries(*beside, second_id)[id] by {
                assert(entries.contains_key(id));
                assert(all[id - first_id] == second[id - second_id]);
            }
            lemma_plan_shape(operators, *beside, second_id, (depth - 1) as nat);
        },
        None => {},
    }
    lemma_shape_parts(op);
    let ids = children_ids(op, first_id);
    let read = plan_shape(operators, first_id as u64, depth).inputs;
    let expected = option_shapes(op.child()) + option_shapes(op.second());
    assert(read.len() == ids.len());
    assert(read.len() == expected.len());
    assert forall|i: int| 0 <= i < read.len() implies read[i] == expected[i] by {
        assert(read[i] == plan_shape(operators, ids[i], (depth - 1) as nat));
        if op.child() is Some && i == 0 {
            assert(ids[i] == (first_id + 1) as u64);
        } else {
            assert(ids[i] == second_id as u64);
        }
    }
    assert(read =~= expected);
}

/// The inputs of a tree are its first input, if it has one, and then its
/// second input, if it has one.
pub proof fn lemma_shape_parts(op: OperatorModel)
    ensures
        operator_shape(op).inputs == option_shapes(op.child()) + option_shapes(op.second()),
{
    reveal_with_fuel(option_shapes, 2);
    assert(operator_shape(op).inputs =~= option_shapes(op.child()) + option_shapes(op.second()));
}

/// The plan of a query keeps the shape of its operator tree: read back from
/// the plan, the root of the tree has the shape of the tree, and the sink has
/// the tree as its one input.
pub proof fn lemma_query_plan_shape(query: QueryModel)
    requires
        fits_identifiers(query),
    ensures
        plan_shape(
            serialized_query(query).operator_map,
            0,
            query.operator.node_count(),
        ) == operator_shape(query.operator),
        plan_shape(
            serialized_query(query).operator_map,
            query.operator.node_count() as u64,
            query.operator.node_count() + 1,
        ) == (Shape { inputs: seq![operator_shape(query.operator)] }),
{
    let plan = serialized_query(query);
    let count = query.operator.node_count();
    lemma_flattened_len(query.operator, 0);
    assert(holds_tree(plan.operator_map, query.operator, 0));
    lemma_plan_shape(plan.operator_map, query.operator, 0, count);
    assert(plan.operator_map.contains_key(count as u64));
    assert(plan.operator_map[count as u64].children_ids == seq![0u64]);
    assert(plan_shape(plan.operator_map, count as u64, count + 1).inputs =~= seq![
        operator_shape(query.operator),
    ]);
}

} // verus!
