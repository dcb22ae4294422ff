use nes_rust_client::expression::field::Field;
use nes_rust_client::expression::literal::Literal;
use nes_rust_client::expression::unary_expression::UnaryOp;
use nes_rust_client::expression::expression::RawExpr;
use nes_rust_client::expression::binary_expression::BinaryOp;
use nes_rust_client::expression::{ArithmeticExpr, ExprBuilder as EB};
use nes_rust_client::query::operator::Operator;
use nes_rust_client::query::sink::Sink;
use nes_rust_client::query::time::{Duration, TimeCharacteristic, TimeUnit};
use nes_rust_client::query::window::aggregation::Aggregation;
use nes_rust_client::query::window::window_descriptor::WindowDescriptor;
use nes_rust_client::query::QueryBuilder;
use nes_rust_client::serialization::protobuf::nes::{
    AggregationKind, BinaryExpressionKind, ExpressionDetails, FloatDetails, IntegerDetails,
    OperatorDetails, SerializableDataType, SerializableExpression, SerializableOperator,
    SerializableTimeCharacteristic, SerializableWindowType, SinkDetails, TimeCharacteristicKind,
    UnaryExpressionKind,
};
use nes_rust_client::serialization::protobuf::serialize_data_type::serialize_data_type;
use nes_rust_client::serialization::protobuf::serialize_expression::{
    serialize_expression, serialize_field, serialize_field_assignment,
};
use nes_rust_client::serialization::protobuf::serialize_operator::{
    traverse_operators, SerializableOperatorBuilder,
};
use nes_rust_client::serialization::protobuf::serialize_query::{
    serialize_query, try_serialize_query,
};
use nes_rust_client::serialization::protobuf::serialize_sink::serialize_sink_details;
use nes_rust_client::serialization::protobuf::serialize_window::{
    serialize_aggregations, serialize_time_characteristic, serialize_window_descriptor,
    serialize_window_keys,
};
use nes_rust_client::types::{FloatType, IntType, NesType};
use std::collections::HashMap;

fn undefined_access(name: &str) -> SerializableExpression {
    SerializableExpression {
        details: ExpressionDetails::FieldAccess {
            field_name: name.to_string(),
            field_type: SerializableDataType::Undefined,
        },
        stamp: SerializableDataType::Undefined,
    }
}

fn int32() -> SerializableDataType {
    SerializableDataType::Integer(IntegerDetails {
        bits: 32,
        upper_bound: 2147483647,
        lower_bound: -2147483648,
    })
}

fn tumbling(amount: u32) -> WindowDescriptor {
    WindowDescriptor::TumblingWindow {
        duration: Duration::from_seconds(amount),
        time_character: TimeCharacteristic::EventTime {
            field_name: "ts".to_string(),
            unit: TimeUnit::Milliseconds,
        },
    }
}

#[test]
fn union_test() {
    let query_sub = QueryBuilder::from_source("test").filter(
        EB::field("value")
            .greater_than(EB::literal(0))
            .not()
            .build_logical()
            .unwrap(),
    );

    let query = QueryBuilder::from_source("test")
        .filter(
            EB::field("value")
                .greater_than(EB::literal(0))
                .build_logical()
                .unwrap(),
        )
        .union(query_sub)
        .sink(Sink::File {
            path: "./generated_files/result-1.csv".into(),
            format: "CSV_FORMAT".into(),
            append: false,
        });
    let mut id = 0;
    let mut operator_map = HashMap::new();
    traverse_operators(Some(query.operator()), &mut id, &mut operator_map);
    assert_eq!(5, id);
    assert_eq!(6, serialize_query(&query).operator_map.len());
}

#[test]
fn source_and_sink_make_two_entries() {
    let query = QueryBuilder::from_source("s").sink(Sink::Print);
    let plan = serialize_query(&query);
    assert_eq!(plan.operator_map.len(), 2);
    assert_eq!(
        plan.operator_map[&0],
        SerializableOperator {
            details: Some(OperatorDetails::Source { logical_source_name: "s".to_string() }),
            operator_id: 0,
            children_ids: vec![],
        }
    );
    assert_eq!(
        plan.operator_map[&1],
        SerializableOperator {
            details: Some(OperatorDetails::Sink(SinkDetails::Print)),
            operator_id: 1,
            children_ids: vec![0],
        }
    );
    assert_eq!(plan.root_operator_ids, vec![1]);
}

#[test]
fn filter_source_and_sink_make_three_entries() {
    let f = EB::field("x").equals(EB::literal(2)).build_logical().unwrap();
    let query = QueryBuilder::from_source("s").filter(f).sink(Sink::Print);
    let plan = serialize_query(&query);
    assert_eq!(plan.operator_map.len(), 3);
    let filter = &plan.operator_map[&0];
    assert_eq!(filter.operator_id, 0);
    assert_eq!(filter.children_ids, vec![1]);
    assert_eq!(
        filter.details,
        Some(OperatorDetails::Filter {
            predicate: SerializableExpression {
                details: ExpressionDetails::Binary {
                    kind: BinaryExpressionKind::Equals,
                    left: Box::new(undefined_access("x")),
                    right: Box::new(SerializableExpression {
                        details: ExpressionDetails::ConstantValue {
                            value_type: int32(),
                            value: "2".to_string(),
                        },
                        stamp: int32(),
                    }),
                },
                stamp: SerializableDataType::Boolean,
            },
        })
    );
    let source = &plan.operator_map[&1];
    assert_eq!(
        source.details,
        Some(OperatorDetails::Source { logical_source_name: "s".to_string() })
    );
    assert_eq!(source.operator_id, 1);
    assert!(source.children_ids.is_empty());
    let sink = &plan.operator_map[&2];
    assert_eq!(sink.details, Some(OperatorDetails::Sink(SinkDetails::Print)));
    assert_eq!(sink.operator_id, 2);
    assert_eq!(sink.children_ids, vec![0]);
    assert_eq!(plan.root_operator_ids, vec![2]);
}

#[test]
fn union_children_are_numbered_one_subtree_after_the_other() {
    let other = QueryBuilder::from_source("b");
    let query = QueryBuilder::from_source("a").union(other).sink(Sink::NullOutput);
    let plan = serialize_query(&query);
    assert_eq!(plan.operator_map.len(), 4);
    let union = &plan.operator_map[&0];
    assert_eq!(union.details, Some(OperatorDetails::Union));
    assert_eq!(union.children_ids, vec![1, 2]);
    assert_eq!(
        plan.operator_map[&1].details,
        Some(OperatorDetails::Source { logical_source_name: "a".to_string() })
    );
    assert_eq!(
        plan.operator_map[&2].details,
        Some(OperatorDetails::Source { logical_source_name: "b".to_string() })
    );
    assert_eq!(plan.operator_map[&3].details, Some(OperatorDetails::Sink(SinkDetails::NullOutput)));
    assert_eq!(plan.operator_map[&3].children_ids, vec![0]);
    assert_eq!(plan.root_operator_ids, vec![3]);
    let mut keys: Vec<u64> = plan.operator_map.keys().copied().collect();
    keys.sort();
    assert_eq!(keys, vec![0, 1, 2, 3]);
    for (key, op) in plan.operator_map.iter() {
        assert_eq!(*key, op.operator_id);
    }
}

#[test]
fn deeper_union_keeps_the_subtrees_apart() {
    let filter = |name: &str| EB::field(name).not().build_logical().unwrap();
    let other = QueryBuilder::from_source("b").filter(filter("y"));
    let query = QueryBuilder::from_source("a")
        .filter(filter("x"))
        .union(other)
        .filter(filter("z"))
        .sink(Sink::NullOutput);
    let plan = serialize_query(&query);
    // 0 filter z, 1 union, 2 filter x, 3 source a, 4 filter y, 5 source b, 6 sink
    assert_eq!(plan.operator_map.len(), 7);
    assert_eq!(plan.operator_map[&0].children_ids, vec![1]);
    assert_eq!(plan.operator_map[&1].children_ids, vec![2, 4]);
    assert_eq!(plan.operator_map[&2].children_ids, vec![3]);
    assert!(plan.operator_map[&3].children_ids.is_empty());
    assert_eq!(plan.operator_map[&4].children_ids, vec![5]);
    assert!(plan.operator_map[&5].children_ids.is_empty());
    assert_eq!(plan.operator_map[&6].children_ids, vec![0]);
    assert_eq!(
        plan.operator_map[&3].details,
        Some(OperatorDetails::Source { logical_source_name: "a".to_string() })
    );
    assert_eq!(
        plan.operator_map[&5].details,
        Some(OperatorDetails::Source { logical_source_name: "b".to_string() })
    );
    assert_eq!(plan.root_operator_ids, vec![6]);
}

#[test]
fn join_has_its_second_input_behind_the_first() {
    let query = QueryBuilder::from_source("left")
        .join_with(QueryBuilder::from_source("right"))
        .where_field("l")
        .equals(Field::typed("r", NesType::Int(IntType::Signed64)).rename("rr"))
        .window(tumbling(5))
        .sink(Sink::Print);
    let plan = serialize_query(&query);
    assert_eq!(plan.operator_map.len(), 4);
    let join = &plan.operator_map[&0];
    assert_eq!(join.children_ids, vec![1, 2]);
    let int64 = SerializableDataType::Integer(IntegerDetails {
        bits: 64,
        upper_bound: i64::MAX,
        lower_bound: i64::MIN,
    });
    assert_eq!(
        join.details,
        Some(OperatorDetails::Join {
            window_type: SerializableWindowType::TumblingWindow {
                time_characteristic: SerializableTimeCharacteristic {
                    kind: TimeCharacteristicKind::EventTime,
                    field: "ts".to_string(),
                    multiplier: 1,
                },
                size: 5000,
            },
            number_of_input_edges_left: 1,
            number_of_input_edges_right: 1,
            left_source_type: undefined_access("l"),
            right_source_type: SerializableExpression {
                details: ExpressionDetails::FieldRename {
                    new_field_name: "rr".to_string(),
                    original_field_access: Box::new(SerializableExpression {
                        details: ExpressionDetails::FieldAccess {
                            field_name: "r".to_string(),
                            field_type: int64,
                        },
                        stamp: int64,
                    }),
                },
                stamp: int64,
            },
        })
    );
    assert_eq!(
        plan.operator_map[&1].details,
        Some(OperatorDetails::Source { logical_source_name: "left".to_string() })
    );
    assert_eq!(
        plan.operator_map[&2].details,
        Some(OperatorDetails::Source { logical_source_name: "right".to_string() })
    );
    match query.operator() {
        Operator::Join(join) => {
            assert_eq!(join.lhs, Field::untyped("l"));
            assert_eq!(join.rhs.projected_name(), Some("rr"));
        }
        _ => panic!("the root is a join"),
    }
}

#[test]
fn count_reads_and_writes_the_count_field() {
    let serialized = serialize_aggregations(&[Aggregation::count()]);
    assert_eq!(serialized.len(), 1);
    assert_eq!(serialized[0].kind, AggregationKind::Count);
    assert_eq!(serialized[0].on_field, Some(undefined_access("count")));
    assert_eq!(serialized[0].as_field, Some(undefined_access("count")));
}

#[test]
fn aggregations_keep_their_order_and_fields() {
    let serialized = serialize_aggregations(&[
        Aggregation::sum("a"),
        Aggregation::average("b").as_field("mean"),
        Aggregation::min("c"),
        Aggregation::max(Field::typed("d", NesType::Bool)),
        Aggregation::median("e"),
        Aggregation::count().as_field("n"),
    ]);
    let kinds: Vec<AggregationKind> = serialized.iter().map(|a| a.kind).collect();
    assert_eq!(
        kinds,
        vec![
            AggregationKind::Sum,
            AggregationKind::Avg,
            AggregationKind::Min,
            AggregationKind::Max,
            AggregationKind::Median,
            AggregationKind::Count,
        ]
    );
    assert_eq!(serialized[0].on_field, Some(undefined_access("a")));
    assert_eq!(serialized[0].as_field, Some(undefined_access("a")));
    assert_eq!(serialized[1].on_field, Some(undefined_access("b")));
    assert_eq!(serialized[1].as_field, Some(undefined_access("mean")));
    assert_eq!(
        serialized[3].on_field,
        Some(SerializableExpression {
            details: ExpressionDetails::FieldAccess {
                field_name: "d".to_string(),
                field_type: SerializableDataType::Boolean,
            },
            stamp: SerializableDataType::Boolean,
        })
    );
    assert_eq!(serialized[5].on_field, Some(undefined_access("count")));
    assert_eq!(serialized[5].as_field, Some(undefined_access("n")));
    assert!(serialize_aggregations(&[]).is_empty());
}

#[test]
fn window_length_is_given_in_milliseconds() {
    let descriptor = WindowDescriptor::TumblingWindow {
        duration: Duration::from_seconds(10),
        time_character: TimeCharacteristic::EventTime {
            field_name: "ts".to_string(),
            unit: TimeUnit::Milliseconds,
        },
    };
    assert_eq!(
        serialize_window_descriptor(&descriptor),
        SerializableWindowType::TumblingWindow {
            time_characteristic: SerializableTimeCharacteristic {
                kind: TimeCharacteristicKind::EventTime,
                field: "ts".to_string(),
                multiplier: 1,
            },
            size: 10000,
        }
    );
    let query = QueryBuilder::from_source("s")
        .window(descriptor)
        .by_key("k1")
        .by_key(String::from("k2"))
        .apply(vec![Aggregation::sum("v")])
        .sink(Sink::Print);
    let plan = serialize_query(&query);
    match &plan.operator_map[&0].details {
        Some(OperatorDetails::Window { window_type, window_aggregations, keys }) => {
            match window_type {
                SerializableWindowType::TumblingWindow { size, .. } => assert_eq!(*size, 10000),
            }
            assert_eq!(window_aggregations.len(), 1);
            assert_eq!(keys, &vec![undefined_access("k1"), undefined_access("k2")]);
        }
        other => panic!("the root is a window, not {:?}", other),
    }
    assert_eq!(plan.operator_map[&0].children_ids, vec![1]);
}

#[test]
fn a_window_without_keys_has_no_key_messages() {
    let query = QueryBuilder::from_source("s")
        .window(tumbling(1))
        .apply(vec![Aggregation::count()])
        .sink(Sink::Print);
    match &serialize_query(&query).operator_map[&0].details {
        Some(OperatorDetails::Window { keys, .. }) => assert!(keys.is_empty()),
        other => panic!("the root is a window, not {:?}", other),
    }
}

#[test]
fn time_characteristic_carries_the_unit_in_milliseconds() {
    let tc = TimeCharacteristic::EventTime { field_name: "t".to_string(), unit: TimeUnit::Hours };
    assert_eq!(
        serialize_time_characteristic(&tc),
        SerializableTimeCharacteristic {
            kind: TimeCharacteristicKind::EventTime,
            field: "t".to_string(),
            multiplier: 3_600_000,
        }
    );
}

#[test]
fn window_keys_are_untyped_fields() {
    let keys = serialize_window_keys(&["a".to_string(), "b".to_string()]);
    assert_eq!(keys, vec![undefined_access("a"), undefined_access("b")]);
    assert!(serialize_window_keys(&[]).is_empty());
}

#[test]
fn serializing_twice_gives_the_same_plan() {
    let query = QueryBuilder::from_source("a")
        .filter(EB::field("x").less_than(EB::literal(3)).build_logical().unwrap())
        .union(QueryBuilder::from_source("b"))
        .project(vec![Field::untyped("x"), Field::untyped("y").rename("z")])
        .sink(Sink::csv_file("out.csv", true));
    let first = serialize_query(&query);
    let second = serialize_query(&query);
    assert_eq!(first, second);
    assert_eq!(serialize_query(&query.clone()), first);
    assert_eq!(try_serialize_query(&query), Some(first));
}

#[test]
fn the_plan_has_one_entry_for_each_node_and_the_sink() {
    let query = QueryBuilder::from_source("a")
        .union(QueryBuilder::from_source("b").union(QueryBuilder::from_source("c")))
        .sink(Sink::Print);
    assert_eq!(query.operator().node_count(), Some(5));
    let plan = serialize_query(&query);
    assert_eq!(plan.operator_map.len(), 6);
    for id in 0..6u64 {
        assert_eq!(plan.operator_map[&id].operator_id, id);
    }
    assert_eq!(plan.operator_map[&0].children_ids, vec![1, 2]);
    assert_eq!(plan.operator_map[&2].children_ids, vec![3, 4]);
}

#[test]
fn data_types_are_described_with_width_and_bounds() {
    assert_eq!(serialize_data_type(NesType::Undefined), SerializableDataType::Undefined);
    assert_eq!(serialize_data_type(NesType::Char), SerializableDataType::Char);
    assert_eq!(serialize_data_type(NesType::Bool), SerializableDataType::Boolean);
    let int = |t| serialize_data_type(NesType::Int(t));
    let details = |bits, upper_bound, lower_bound| {
        SerializableDataType::Integer(IntegerDetails { bits, upper_bound, lower_bound })
    };
    assert_eq!(int(IntType::Signed8), details(8, i8::MAX as i64, i8::MIN as i64));
    assert_eq!(int(IntType::Unsigned8), details(8, u8::MAX as i64, 0));
    assert_eq!(int(IntType::Signed16), details(16, i16::MAX as i64, i16::MIN as i64));
    assert_eq!(int(IntType::Unsigned16), details(16, u16::MAX as i64, 0));
    assert_eq!(int(IntType::Signed32), details(32, i32::MAX as i64, i32::MIN as i64));
    assert_eq!(int(IntType::Unsigned32), details(32, u32::MAX as i64, 0));
    assert_eq!(int(IntType::Signed64), details(64, i64::MAX, i64::MIN));
    assert_eq!(int(IntType::Unsigned64), details(64, u64::MAX as i64, 0));
    assert_eq!(int(IntType::Unsigned64), details(64, -1, 0));
    assert_eq!(
        serialize_data_type(NesType::Float(FloatType::Bit32)),
        SerializableDataType::Float(FloatDetails { bits: 32 })
    );
    assert_eq!(
        serialize_data_type(NesType::Float(FloatType::Bit64)),
        SerializableDataType::Float(FloatDetails { bits: 64 })
    );
}

#[test]
fn expressions_are_serialized_node_by_node() {
    let expr = RawExpr::unary(
        RawExpr::binary(
            Literal::typed("2", NesType::Int(IntType::Signed32)).into(),
            Field::typed("a", NesType::Int(IntType::Signed32)).into(),
            BinaryOp::Remainder,
            NesType::Int(IntType::Signed32),
        ),
        UnaryOp::Absolute,
        NesType::Int(IntType::Signed32),
    );
    let serialized = serialize_expression(&expr);
    assert_eq!(
        serialized,
        SerializableExpression {
            details: ExpressionDetails::Unary {
                kind: UnaryExpressionKind::Abs,
                child: Box::new(SerializableExpression {
                    details: ExpressionDetails::Binary {
                        kind: BinaryExpressionKind::Mod,
                        left: Box::new(SerializableExpression {
                            details: ExpressionDetails::FieldAccess {
                                field_name: "a".to_string(),
                                field_type: int32(),
                            },
                            stamp: int32(),
                        }),
                        right: Box::new(SerializableExpression {
                            details: ExpressionDetails::ConstantValue {
                                value_type: int32(),
                                value: "2".to_string(),
                            },
                            stamp: int32(),
                        }),
                    },
                    stamp: int32(),
                }),
            },
            stamp: int32(),
        }
    );
    assert_eq!(serialized.clone(), serialized);
    let kinds = [
        (BinaryOp::And, BinaryExpressionKind::And),
        (BinaryOp::Or, BinaryExpressionKind::Or),
        (BinaryOp::Equals, BinaryExpressionKind::Equals),
        (BinaryOp::Greater, BinaryExpressionKind::Greater),
        (BinaryOp::GreaterEquals, BinaryExpressionKind::GreaterEquals),
        (BinaryOp::Less, BinaryExpressionKind::Less),
        (BinaryOp::LessEquals, BinaryExpressionKind::LessEquals),
        (BinaryOp::Add, BinaryExpressionKind::Add),
        (BinaryOp::Sub, BinaryExpressionKind::Sub),
        (BinaryOp::Multiply, BinaryExpressionKind::Mul),
        (BinaryOp::Divide, BinaryExpressionKind::Div),
        (BinaryOp::Remainder, BinaryExpressionKind::Mod),
        (BinaryOp::Power, BinaryExpressionKind::Pow),
    ];
    for (op, expected) in kinds {
        let e = RawExpr::binary(
            Field::untyped("r").into(),
            Field::untyped("l").into(),
            op,
            NesType::Undefined,
        );
        match serialize_expression(&e).details {
            ExpressionDetails::Binary { kind, left, right } => {
                assert_eq!(kind, expected);
                assert_eq!(*left, undefined_access("l"));
                assert_eq!(*right, undefined_access("r"));
            }
            other => panic!("a binary message was expected, not {:?}", other),
        }
    }
    let negate = RawExpr::unary(Field::untyped("f").into(), UnaryOp::Negate, NesType::Bool);
    match serialize_expression(&negate).details {
        ExpressionDetails::Unary { kind, .. } => assert_eq!(kind, UnaryExpressionKind::Negate),
        other => panic!("a unary message was expected, not {:?}", other),
    }
}

#[test]
fn renamed_fields_are_wrapped() {
    let plain = Field::typed("a", NesType::Char);
    assert_eq!(
        serialize_field(&plain),
        SerializableExpression {
            details: ExpressionDetails::FieldAccess {
                field_name: "a".to_string(),
                field_type: SerializableDataType::Char,
            },
            stamp: SerializableDataType::Char,
        }
    );
    let renamed = plain.clone().rename("b");
    assert_eq!(
        serialize_field(&renamed),
        SerializableExpression {
            details: ExpressionDetails::FieldRename {
                new_field_name: "b".to_string(),
                original_field_access: Box::new(serialize_field(&plain)),
            },
            stamp: SerializableDataType::Char,
        }
    );
    let expr: RawExpr = renamed.clone().into();
    assert_eq!(serialize_expression(&expr), serialize_field(&renamed));
}

#[test]
fn maps_are_serialized_as_assignments() {
    let value = EB::literal(3).build_arith().unwrap();
    assert_eq!(value, ArithmeticExpr(RawExpr::Literal(3.into())));
    let query = QueryBuilder::from_source("s").map("out", value.clone()).sink(Sink::Print);
    let plan = serialize_query(&query);
    let expected = SerializableExpression {
        details: ExpressionDetails::FieldAssignment {
            field_name: "out".to_string(),
            field_type: SerializableDataType::Undefined,
            assignment: Box::new(serialize_expression(&value.0)),
        },
        stamp: SerializableDataType::Undefined,
    };
    assert_eq!(
        plan.operator_map[&0].details,
        Some(OperatorDetails::FieldMap { expression: expected.clone() })
    );
    assert_eq!(serialize_field_assignment(&Field::untyped("out"), &value.0), expected);
}

#[test]
fn projections_list_their_fields() {
    let query = QueryBuilder::from_source("s")
        .project(vec![Field::untyped("a"), Field::untyped("b").rename("c")])
        .sink(Sink::Print);
    let plan = serialize_query(&query);
    assert_eq!(
        plan.operator_map[&0].details,
        Some(OperatorDetails::Projection {
            expressions: vec![
                undefined_access("a"),
                serialize_field(&Field::untyped("b").rename("c")),
            ],
        })
    );
}

#[test]
fn sinks_are_serialized_by_kind() {
    assert_eq!(serialize_sink_details(&Sink::null()), SinkDetails::NullOutput);
    assert_eq!(serialize_sink_details(&Sink::print()), SinkDetails::Print);
    assert_eq!(
        serialize_sink_details(&Sink::csv_file("result.csv", true)),
        SinkDetails::File {
            file_path: "result.csv".to_string(),
            sink_format: "CSV_FORMAT".to_string(),
            append: true,
            add_timestamp: false,
        }
    );
}

#[test]
fn operator_messages_are_built_step_by_step() {
    let built = SerializableOperatorBuilder::new()
        .details(OperatorDetails::Union)
        .operator_id(7)
        .add_child_id(8)
        .add_child_id(11)
        .build();
    assert_eq!(
        built,
        SerializableOperator {
            details: Some(OperatorDetails::Union),
            operator_id: 7,
            children_ids: vec![8, 11],
        }
    );
    let bare = SerializableOperatorBuilder::default().operator_id(0).build();
    assert_eq!(
        bare,
        SerializableOperator { details: None, operator_id: 0, children_ids: vec![] }
    );
}

#[test]
fn traversal_goes_on_from_the_counter_and_keeps_the_map() {
    let query = QueryBuilder::from_source("a").union(QueryBuilder::from_source("b")).sink(Sink::Print);
    let mut id = 10;
    let mut map = HashMap::new();
    map.insert(3, SerializableOperatorBuilder::new().operator_id(3).build());
    assert_eq!(traverse_operators(None, &mut id, &mut map), None);
    assert_eq!(id, 10);
    assert_eq!(map.len(), 1);
    assert_eq!(traverse_operators(Some(query.operator()), &mut id, &mut map), Some(10));
    assert_eq!(id, 13);
    assert_eq!(map.len(), 4);
    assert_eq!(map[&10].children_ids, vec![11, 12]);
    assert_eq!(map[&3].operator_id, 3);
}
