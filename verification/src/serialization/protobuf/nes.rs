//! The messages of a query plan. Each message holds plain values and is
//! tagged by its kind.

use std::collections::HashMap;
use vstd::prelude::*;

verus! {

/// Width and bounds of an integer type. A bound that 64 signed bits cannot
/// hold is cut to them.
#[derive(Debug, Clone, Copy, PartialEq, Eq, Structural)]
pub struct IntegerDetails {
    pub bits: u64,
    pub upper_bound: i64,
    pub lower_bound: i64,
}

/// Width of a floating-point type. Its bounds are those of the binary
/// format of that width.
#[derive(Debug, Clone, Copy, PartialEq, Eq, Structural)]
pub struct FloatDetails {
    pub bits: u64,
}

/// The description of a data type.
#[derive(Debug, Clone, Copy, PartialEq, Eq, Structural)]
pub enum SerializableDataType {
    Undefined,
    Char,
    Boolean,
    Integer(IntegerDetails),
    Float(FloatDetails),
}

/// The kinds of expression with one operand.
#[derive(Debug, Clone, Copy, PartialEq, Eq, Structural)]
pub enum UnaryExpressionKind {
    Negate,
    Abs,
}

/// The kinds of expression with two operands.
#[derive(Debug, Clone, Copy, PartialEq, Eq, Structural)]
pub enum BinaryExpressionKind {
    And,
    Or,
    Equals,
    Greater,
    GreaterEquals,
    Less,
    LessEquals,
    Add,
    Sub,
    Mul,
    Div,
    Mod,
    Pow,
}

/// An expression: what it is made of and the type of its value.
#[derive(Debug, PartialEq)]
pub struct SerializableExpression {
    pub details: ExpressionDetails,
    pub stamp: SerializableDataType,
}

/// What an expression is made of.
#[allow(inconsistent_fields)]
#[derive(Debug, PartialEq)]
pub enum ExpressionDetails {
    /// A constant: its type and its text.
    ConstantValue { value_type: SerializableDataType, value: String },
    /// The value of a field.
    FieldAccess { field_name: String, field_type: SerializableDataType },
    /// The value of a field under a new name.
    FieldRename { new_field_name: String, original_field_access: Box<SerializableExpression> },
    /// The value of an expression, written to a field.
    FieldAssignment {
        field_name: String,
        field_type: SerializableDataType,
        assignment: Box<SerializableExpression>,
    },
    /// An operator over one expression.
    Unary { kind: UnaryExpressionKind, child: Box<SerializableExpression> },
    /// An operator over two expressions.
    Binary {
        kind: BinaryExpressionKind,
        left: Box<SerializableExpression>,
        right: Box<SerializableExpression>,
    },
}

/// What a [`SerializableExpression`] stands for.
pub ghost struct ExpressionMessage {
    pub details: ExpressionDetailsMessage,
    pub stamp: SerializableDataType,
}

/// What an [`ExpressionDetails`] stands for.
#[allow(inconsistent_fields)]
pub ghost enum ExpressionDetailsMessage {
    ConstantValue { value_type: SerializableDataType, value: Seq<char> },
    FieldAccess { field_name: Seq<char>, field_type: SerializableDataType },
    FieldRename { new_field_name: Seq<char>, original_field_access: Box<ExpressionMessage> },
    FieldAssignment {
        field_name: Seq<char>,
        field_type: SerializableDataType,
        assignment: Box<ExpressionMessage>,
    },
    Unary { kind: UnaryExpressionKind, child: Box<ExpressionMessage> },
    Binary { kind: BinaryExpressionKind, left: Box<ExpressionMessage>, right: Box<ExpressionMessage> },
}

/// The message that a serialized expression stands for.
pub open spec fn expression_message(e: SerializableExpression) -> ExpressionMessage
    decreases e,
{
    ExpressionMessage {
        stamp: e.stamp,
        details: match e.details {
            ExpressionDetails::ConstantValue {
                value_type,
                value,
            } => ExpressionDetailsMessage::ConstantValue { value_type, value: value@ },
            ExpressionDetails::FieldAccess {
                field_name,
                field_type,
            } => ExpressionDetailsMessage::FieldAccess { field_name: field_name@, field_type },
            ExpressionDetails::FieldRename {
                new_field_name,
                original_field_access,
            } => ExpressionDetailsMessage::FieldRename {
                new_field_name: new_field_name@,
                original_field_access: Box::new(expression_message(*original_field_access)),
            },
            ExpressionDetails::FieldAssignment {
                field_name,
                field_type,
                assignment,
            } => ExpressionDetailsMessage::FieldAssignment {
                field_name: field_name@,
                field_type,
                assignment: Box::new(expression_message(*assignment)),
            },
            ExpressionDetails::Unary { kind, child } => ExpressionDetailsMessage::Unary {
                kind,
                child: Box::new(expression_message(*child)),
            },
            ExpressionDetails::Binary { kind, left, right } => ExpressionDetailsMessage::Binary {
                kind,
                left: Box::new(expression_message(*left)),
                right: Box::new(expression_message(*right)),
            },
        },
    }
}

impl View for SerializableExpression {
    type V = ExpressionMessage;

    open spec fn view(&self) -> ExpressionMessage {
        expression_message(*self)
    }
}

fn clone_expression(e: &SerializableExpression) -> (r: SerializableExpression)
    ensures
        r@ == e@,
    decreases e,
{
    let details = match &e.details {
        ExpressionDetails::ConstantValue { value_type, value } => ExpressionDetails::ConstantValue {
            value_type: *value_type,
            value: value.clone(),
        },
        ExpressionDetails::FieldAccess { field_name, field_type } => ExpressionDetails::FieldAccess {
            field_name: field_name.clone(),
            field_type: *field_type,
        },
        ExpressionDetails::FieldRename {
            new_field_name,
            original_field_access,
        } => ExpressionDetails::FieldRename {
            new_field_name: new_field_name.clone(),
            original_field_access: Box::new(clone_expression(original_field_access)),
        },
        ExpressionDetails::FieldAssignment {
            field_name,
            field_type,
            assignment,
        } => ExpressionDetails::FieldAssignment {
            field_name: field_name.clone(),
            field_type: *field_type,
            assignment: Box::new(clone_expression(assignment)),
        },
        ExpressionDetails::Unary { kind, child } => ExpressionDetails::Unary {
            kind: *kind,
            child: Box::new(clone_expression(child)),
        },
        ExpressionDetails::Binary { kind, left, right } => ExpressionDetails::Binary {
            kind: *kind,
            left: Box::new(clone_expression(left)),
            right: Box::new(clone_expression(right)),
        },
    };
    SerializableExpression { details, stamp: e.stamp }
}

impl Clone for SerializableExpression {
    fn clone(&self) -> (r: Self)
        ensures
            r@ == self@,
    {
        clone_expression(self)
    }
}

/// The messages that a sequence of serialized expressions stands for.
pub open spec fn expression_messages(es: Seq<SerializableExpression>) -> Seq<ExpressionMessage> {
    es.map_values(|e: SerializableExpression| e@)
}

/// What an optional serialized expression stands for.
pub open spec fn option_expression_message(e: Option<SerializableExpression>) -> Option<
    ExpressionMessage,
> {
    match e {
        Some(e) => Some(e@),
        None => None,
    }
}

/// The kinds of time that a window goes by.
#[derive(Debug, Clone, Copy, PartialEq, Eq, Structural)]
pub enum TimeCharacteristicKind {
    EventTime,
}

/// The time that a window goes by: its kind, the field that holds it, and
/// the number of milliseconds in one unit of the field.
#[derive(Debug, PartialEq)]
pub struct SerializableTimeCharacteristic {
    pub kind: TimeCharacteristicKind,
    pub field: String,
    pub multiplier: u64,
}

/// What a [`SerializableTimeCharacteristic`] stands for.
pub ghost struct TimeCharacteristicMessage {
    pub kind: TimeCharacteristicKind,
    pub field: Seq<char>,
    pub multiplier: u64,
}

impl View for SerializableTimeCharacteristic {
    type V = TimeCharacteristicMessage;

    open spec fn view(&self) -> TimeCharacteristicMessage {
        TimeCharacteristicMessage { kind: self.kind, field: self.field@, multiplier: self.multiplier }
    }
}

/// A window: its kind and what belongs to it.
#[derive(Debug, PartialEq)]
pub enum SerializableWindowType {
    /// Windows of `size` milliseconds that follow each other.
    TumblingWindow { time_characteristic: SerializableTimeCharacteristic, size: u64 },
}

/// What a [`SerializableWindowType`] stands for.
pub ghost enum WindowTypeMessage {
    TumblingWindow { time_characteristic: TimeCharacteristicMessage, size: u64 },
}

impl View for SerializableWindowType {
    type V = WindowTypeMessage;

    open spec fn view(&self) -> WindowTypeMessage {
        match *self {
            SerializableWindowType::TumblingWindow {
                time_characteristic,
                size,
            } => WindowTypeMessage::TumblingWindow {
                time_characteristic: time_characteristic@,
                size,
            },
        }
    }
}

/// The tags of the aggregation functions.
#[derive(Debug, Clone, Copy, PartialEq, Eq, Structural)]
pub enum AggregationKind {
    Sum,
    Avg,
    Min,
    Max,
    Median,
    Count,
}

/// An aggregation: its function, the field it reads and the field that its
/// result is written to.
#[derive(Debug, PartialEq)]
pub struct SerializableAggregation {
    pub kind: AggregationKind,
    pub on_field: Option<SerializableExpression>,
    pub as_field: Option<SerializableExpression>,
}

/// What a [`SerializableAggregation`] stands for.
pub ghost struct AggregationMessage {
    pub kind: AggregationKind,
    pub on_field: Option<ExpressionMessage>,
    pub as_field: Option<ExpressionMessage>,
}

impl View for SerializableAggregation {
    type V = AggregationMessage;

    open spec fn view(&self) -> AggregationMessage {
        AggregationMessage {
            kind: self.kind,
            on_field: option_expression_message(self.on_field),
            as_field: option_expression_message(self.as_field),
        }
    }
}

/// The messages that a sequence of serialized aggregations stands for.
pub open spec fn aggregation_messages(aggregations: Seq<SerializableAggregation>) -> Seq<
    AggregationMessage,
> {
    aggregations.map_values(|a: SerializableAggregation| a@)
}

/// A sink: its kind and what belongs to it.
#[derive(Debug, PartialEq)]
pub enum SinkDetails {
    NullOutput,
    Print,
    File { file_path: String, sink_format: String, append: bool, add_timestamp: bool },
}

/// What a [`SinkDetails`] stands for.
pub ghost enum SinkDetailsMessage {
    NullOutput,
    Print,
    File { file_path: Seq<char>, sink_format: Seq<char>, append: bool, add_timestamp: bool },
}

impl View for SinkDetails {
    type V = SinkDetailsMessage;

    open spec fn view(&self) -> SinkDetailsMessage {
        match *self {
            SinkDetails::NullOutput => SinkDetailsMessage::NullOutput,
            SinkDetails::Print => SinkDetailsMessage::Print,
            SinkDetails::File {
                file_path,
                sink_format,
                append,
                add_timestamp,
            } => SinkDetailsMessage::File {
                file_path: file_path@,
                sink_format: sink_format@,
                append,
                add_timestamp,
            },
        }
    }
}

/// What an operator of the plan does: its kind and what belongs to it.
#[derive(Debug, PartialEq)]
pub enum OperatorDetails {
    Source { logical_source_name: String },
    Filter { predicate: SerializableExpression },
    FieldMap { expression: SerializableExpression },
    Projection { expressions: Vec<SerializableExpression> },
    Window {
        window_type: SerializableWindowType,
        window_aggregations: Vec<SerializableAggregation>,
        keys: Vec<SerializableExpression>,
    },
    Join {
        window_type: SerializableWindowType,
        number_of_input_edges_left: u64,
        number_of_input_edges_right: u64,
        left_source_type: SerializableExpression,
        right_source_type: SerializableExpression,
    },
    Union,
    Sink(SinkDetails),
}

/// What an [`OperatorDetails`] stands for.
#[allow(inconsistent_fields)]
pub ghost enum OperatorDetailsMessage {
    Source { logical_source_name: Seq<char> },
    Filter { predicate: ExpressionMessage },
    FieldMap { expression: ExpressionMessage },
    Projection { expressions: Seq<ExpressionMessage> },
    Window {
        window_type: WindowTypeMessage,
        window_aggregations: Seq<AggregationMessage>,
        keys: Seq<ExpressionMessage>,
    },
    Join {
        window_type: WindowTypeMessage,
        number_of_input_edges_left: u64,
        number_of_input_edges_right: u64,
        left_source_type: ExpressionMessage,
        right_source_type: ExpressionMessage,
    },
    Union,
    Sink(SinkDetailsMessage),
}

impl View for OperatorDetails {
    type V = OperatorDetailsMessage;

    open spec fn view(&self) -> OperatorDetailsMessage {
        match *self {
            OperatorDetails::Source { logical_source_name } => OperatorDetailsMessage::Source {
                logical_source_name: logical_source_name@,
            },
            OperatorDetails::Filter { predicate } => OperatorDetailsMessage::Filter {
                predicate: predicate@,
            },
            OperatorDetails::FieldMap { expression } => OperatorDetailsMessage::FieldMap {
                expression: expression@,
            },
            OperatorDetails::Projection { expressions } => OperatorDetailsMessage::Projection {
                expressions: expression_messages(expressions@),
            },
            OperatorDetails::Window {
                window_type,
                window_aggregations,
                keys,
            } => OperatorDetailsMessage::Window {
                window_type: window_type@,
                window_aggregations: aggregation_messages(window_aggregations@),
                keys: expression_messages(keys@),
            },
            OperatorDetails::Join {
                window_type,
                number_of_input_edges_left,
                number_of_input_edges_right,
                left_source_type,
                right_source_type,
            } => OperatorDetailsMessage::Join {
                window_type: window_type@,
                number_of_input_edges_left,
                number_of_input_edges_right,
                left_source_type: left_source_type@,
                right_source_type: right_source_type@,
            },
            OperatorDetails::Union => OperatorDetailsMessage::Union,
            OperatorDetails::Sink(sink) => OperatorDetailsMessage::Sink(sink@),
        }
    }
}

/// What optional operator details stand for.
pub open spec fn option_details_message(details: Option<OperatorDetails>) -> Option<
    OperatorDetailsMessage,
> {
    match details {
        Some(details) => Some(details@),
        None => None,
    }
}

/// One operator of the plan: what it does, its identifier, and the
/// identifiers of its inputs in order.
#[derive(Debug, PartialEq)]
pub struct SerializableOperator {
    pub details: Option<OperatorDetails>,
    pub operator_id: u64,
    pub children_ids: Vec<u64>,
}

/// What a [`SerializableOperator`] stands for.
pub ghost struct OperatorMessage {
    pub details: Option<OperatorDetailsMessage>,
    pub operator_id: u64,
    pub children_ids: Seq<u64>,
}

impl View for SerializableOperator {
    type V = OperatorMessage;

    open spec fn view(&self) -> OperatorMessage {
        OperatorMessage {
            details: option_details_message(self.details),
            operator_id: self.operator_id,
            children_ids: self.children_ids@,
        }
    }
}

/// What a map of serialized operators stands for.
pub open spec fn operator_messages(operators: Map<u64, SerializableOperator>) -> Map<
    u64,
    OperatorMessage,
> {
    operators.map_values(|op: SerializableOperator| op@)
}

/// A query plan: its operators by identifier, and the identifiers of the
/// operators that nothing reads from.
#[derive(Debug, PartialEq)]
pub struct SerializableQueryPlan {
    pub operator_map: HashMap<u64, SerializableOperator>,
    pub root_operator_ids: Vec<u64>,
}

/// What a [`SerializableQueryPlan`] stands for.
pub ghost struct QueryPlanMessage {
    pub operator_map: Map<u64, OperatorMessage>,
    pub root_operator_ids: Seq<u64>,
}

impl View for SerializableQueryPlan {
    type V = QueryPlanMessage;

    open spec fn view(&self) -> QueryPlanMessage {
        QueryPlanMessage {
            operator_map: operator_messages(self.operator_map@),
            root_operator_ids: self.root_operator_ids@,
        }
    }
}

} // verus!
