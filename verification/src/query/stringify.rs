//! Queries and expressions as text that a person can read.

use crate::expression::binary_expression::{BinaryExpr, BinaryOp};
use crate::expression::expression::{ExprModel, RawExpr};
use crate::expression::field::{Field, FieldModel};
use crate::expression::literal::Literal;
use crate::expression::unary_expression::{UnaryExpr, UnaryOp};
use crate::query::join::Join;
use crate::query::operator::{
    aggregation_models, child_model, field_models, FieldMap, Filter, Operator, OperatorModel, Projection,
    Union, Window,
};
use crate::query::query::{Query, QueryModel};
use crate::query::sink::{Sink, SinkModel};
use crate::query::time::{Duration, TimeCharacteristic, TimeCharacteristicModel, TimeUnit};
use crate::query::window::aggregation::{Aggregation, AggregationModel, AggregationType};
use crate::query::window::window_descriptor::{WindowDescriptor, WindowDescriptorModel};
use crate::text::{bool_text, bool_to_string, decimal, u64_to_string};
use vstd::prelude::*;
use vstd::string::*;

verus! {

/// How much of a query its text shows.
#[derive(Debug, Clone, Copy, PartialEq, Eq, Structural)]
pub enum StringifyDetail {
    Default,
}

/// The sign of an operator with one operand.
pub open spec fn unary_op_text(operator: UnaryOp) -> Seq<char> {
    match operator {
        UnaryOp::Negate => "!"@,
        UnaryOp::Absolute => "abs"@,
    }
}

/// The sign of an operator with two operands.
pub open spec fn binary_op_text(operator: BinaryOp) -> Seq<char> {
    match operator {
        BinaryOp::And => "&&"@,
        BinaryOp::Or => "||"@,
        BinaryOp::Equals => "=="@,
        BinaryOp::Greater => ">"@,
        BinaryOp::GreaterEquals => ">="@,
        BinaryOp::Less => "<"@,
        BinaryOp::LessEquals => "<="@,
        BinaryOp::Add => "+"@,
        BinaryOp::Sub => "-"@,
        BinaryOp::Multiply => "*"@,
        BinaryOp::Divide => "/"@,
        BinaryOp::Remainder => "%"@,
        BinaryOp::Power => "^"@,
    }
}

/// The text of a field: its name in quotes inside `Field(..)`.
pub open spec fn field_text(name: Seq<char>) -> Seq<char> {
    "Field(\""@ + name + "\")"@
}

/// The text of an expression: a constant is its own text; an operator with
/// one operand stands before its operand in brackets; an operator with two
/// operands stands between them, all in brackets.
pub open spec fn expr_text(expr: ExprModel) -> Seq<char>
    decreases expr,
{
    match expr {
        ExprModel::Literal(literal) => literal.value,
        ExprModel::Field(field) => field_text(field.name),
        ExprModel::Unary { operator, expr, .. } => unary_op_text(operator) + "("@ + expr_text(*expr)
            + ")"@,
        ExprModel::Binary { operator, lhs, rhs, .. } => "("@ + expr_text(*lhs) + " "@
            + binary_op_text(operator) + " "@ + expr_text(*rhs) + ")"@,
    }
}

/// The text of a sink.
pub open spec fn sink_text(sink: SinkModel) -> Seq<char> {
    match sink {
        SinkModel::NullOutput => "NullOutputSink"@,
        SinkModel::Print => "PrintSink"@,
        SinkModel::File { path, format, append } => "FileSink(\""@ + path + "\", "@ + format
            + ", "@ + bool_text(append) + ")"@,
    }
}

/// The short sign of a time unit.
pub open spec fn time_unit_symbol(unit: TimeUnit) -> Seq<char> {
    match unit {
        TimeUnit::Milliseconds => "ms"@,
        TimeUnit::Seconds => "s"@,
        TimeUnit::Minutes => "min"@,
        TimeUnit::Hours => "h"@,
        TimeUnit::Days => "d"@,
    }
}

/// The text of a duration: the amount, then the sign of the unit.
pub open spec fn duration_text(duration: Duration) -> Seq<char> {
    decimal(duration.amount as int) + time_unit_symbol(duration.unit)
}

/// The text of the time that a window goes by.
pub open spec fn time_character_text(character: TimeCharacteristicModel) -> Seq<char> {
    match character {
        TimeCharacteristicModel::EventTime { field_name, unit } => "EventTime(\""@ + field_name
            + "\", "@ + unit.name() + ")"@,
    }
}

/// The text of a window.
pub open spec fn window_descriptor_text(descriptor: WindowDescriptorModel) -> Seq<char> {
    match descriptor {
        WindowDescriptorModel::TumblingWindow { duration, time_character } => "TumblingWindow("@
            + duration_text(duration) + ", "@ + time_character_text(time_character) + ")"@,
    }
}

/// The name of an aggregation function.
pub open spec fn aggregation_type_text(agg_type: AggregationType) -> Seq<char> {
    match agg_type {
        AggregationType::Sum => "sum"@,
        AggregationType::Average => "average"@,
        AggregationType::Min => "min"@,
        AggregationType::Max => "max"@,
        AggregationType::Median => "median"@,
        AggregationType::Count => "count"@,
    }
}

/// The text of one aggregation, with the comma that follows it.
pub open spec fn aggregation_text(aggregation: AggregationModel) -> Seq<char> {
    let name = aggregation_type_text(aggregation.agg_type);
    match (aggregation.field, aggregation.projected_field) {
        (None, None) => name + "(), "@,
        (None, Some(p)) => name + "(as(\""@ + p.name + "\")), "@,
        (Some(f), None) => name + "(Field(\""@ + f.name + "\")), "@,
        (Some(f), Some(p)) => name + "(Field(\""@ + f.name + "\").as(\""@ + p.name + "\")), "@,
    }
}

/// The texts of aggregations, one behind the other.
pub open spec fn aggregations_text(aggregations: Seq<AggregationModel>) -> Seq<char>
    decreases aggregations.len(),
{
    if aggregations.len() == 0 {
        Seq::empty()
    } else {
        aggregations_text(aggregations.drop_last()) + aggregation_text(aggregations.last())
    }
}

/// The text of one field of a projection, with the comma that follows it.
pub open spec fn projected_field_text(field: FieldModel) -> Seq<char> {
    match field.projected_name {
        Some(as_name) => "Field(\""@ + field.name + "\").as(\""@ + as_name + "\"), "@,
        None => "Field(\""@ + field.name + "\"), "@,
    }
}

/// The texts of the fields of a projection, one behind the other.
pub open spec fn projected_fields_text(fields: Seq<FieldModel>) -> Seq<char>
    decreases fields.len(),
{
    if fields.len() == 0 {
        Seq::empty()
    } else {
        projected_fields_text(fields.drop_last()) + projected_field_text(fields.last())
    }
}

/// The text of an optional operator tree: nothing where there is none.
pub open spec fn option_operator_text(op: Option<Box<OperatorModel>>) -> Seq<char>
    decreases op,
{
    match op {
        Some(op) => operator_text(*op),
        None => Seq::empty(),
    }
}

/// The text of an operator tree: the text of the tree of the first input,
/// then the step that the root adds to it.
pub open spec fn operator_text(op: OperatorModel) -> Seq<char>
    decreases op,
{
    match op {
        OperatorModel::LogicalSource { source_name } => "logical_source(\""@ + source_name
            + "\")"@,
        OperatorModel::Filter { expression, child } => option_operator_text(child) + ".filter("@
            + expr_text(expression) + ")"@,
        OperatorModel::Projection { fields, child } => option_operator_text(child) + ".project("@
            + projected_fields_text(fields) + ")"@,
        OperatorModel::FieldMap { assigned_field, expression, child } => option_operator_text(child)
            + ".map("@ + assigned_field + ", "@ + expr_text(expression) + ")"@,
        OperatorModel::Window { descriptor, aggregations, child, .. } => option_operator_text(child)
            + ".window("@ + window_descriptor_text(descriptor) + ").apply("@ + aggregations_text(
            aggregations,
        ) + ")"@,
        OperatorModel::Join { lhs, rhs, window, joined_operator, child } => option_operator_text(
            child,
        ) + ".join("@ + operator_text(*joined_operator) + ").where("@ + field_text(lhs.name)
            + ").equals("@ + field_text(rhs.name) + ").window("@ + window_descriptor_text(window)
            + ")"@,
        OperatorModel::Union { operator, child } => option_operator_text(child) + ".union("@
            + operator_text(*operator) + ")"@,
    }
}

/// The text of a query: its operator tree, then its sink.
pub open spec fn query_text(query: QueryModel) -> Seq<char> {
    operator_text(query.operator) + ".sink("@ + sink_text(query.sink) + ");"@
}

/// The text of a query.
pub fn stringify_query(query: &Query) -> (r: String)
    ensures
        r@ == query_text(query@),
{
    let mut text = stringify_operator(query.operator());
    text.append(".sink(");
    text.append(stringify_sink(query.sink()).as_str());
    text.append(");");
    text
}

fn stringify_child(child: &Option<Box<Operator>>) -> (r: String)
    ensures
        r@ == option_operator_text(child_model(*child)),
    decreases child,
{
    match child {
        Some(child) => stringify_operator(child),
        None => String::new(),
    }
}

fn stringify_operator(operator: &Operator) -> (r: String)
    ensures
        r@ == operator_text(operator@),
    decreases operator,
{
    match operator {
        Operator::LogicalSource { source_name } => {
            let mut text = String::from_str("logical_source(\"");
            text.append(source_name.as_str());
            text.append("\")");
            text
        },
        Operator::Filter(filter) => stringify_filter_operator(filter),
        Operator::Projection(projection) => stringify_projection_operator(projection),
        Operator::FieldMap(map) => stringify_map_operator(map),
        Operator::Window(window) => stringify_window_operator(window),
        Operator::Join(join) => stringify_join_operator(join),
        Operator::Union(union) => stringify_union_operator(union),
    }
}

fn stringify_filter_operator(filter: &Filter) -> (r: String)
    ensures
        r@ == operator_text(Operator::Filter(*filter)@),
    decreases filter,
{
    let mut text = stringify_child(&filter.child);
    text.append(".filter(");
    text.append(stringify_expr(&filter.expression.0).as_str());
    text.append(")");
    text
}

fn stringify_projection_operator(projection: &Projection) -> (r: String)
    ensures
        r@ == operator_text(Operator::Projection(*projection)@),
    decreases projection,
{
    let mut fields = String::new();
    let mut i: usize = 0;
    while i < projection.fields.len()
        invariant
            i <= projection.fields.len(),
            fields@ == projected_fields_text(field_models(projection.fields@.take(i as int))),
        decreases projection.fields.len() - i,
    {
        let field = &projection.fields[i];
        let ghost before = fields@;
        fields.append("Field(\"");
        fields.append(field.name());
        match field.projected_name() {
            Some(as_name) => {
                fields.append("\").as(\"");
                fields.append(as_name);
                fields.append("\"), ");
            },
            None => {
                fields.append("\"), ");
            },
        }
        proof {
            let taken = field_models(projection.fields@.take(i + 1));
            assert(taken.drop_last() =~= field_models(projection.fields@.take(i as int)));
            assert(taken.last() == field@);
            assert(fields@ =~= before + projected_field_text(field@));
        }
        i += 1;
    }
    assert(projection.fields@.take(i as int) =~= projection.fields@);
    let mut text = stringify_child(&projection.child);
    text.append(".project(");
    text.append(fields.as_str());
    text.append(")");
    text
}

fn stringify_map_operator(map: &FieldMap) -> (r: String)
    ensures
        r@ == operator_text(Operator::FieldMap(*map)@),
    decreases map,
{
    let mut text = stringify_child(&map.child);
    text.append(".map(");
    text.append(map.assigned_field.as_str());
    text.append(", ");
    text.append(stringify_expr(&map.expression.0).as_str());
    text.append(")");
    text
}

fn stringify_window_operator(window: &Window) -> (r: String)
    ensures
        r@ == operator_text(Operator::Window(*window)@),
    decreases window,
{
    let mut text = stringify_child(&window.child);
    text.append(".window(");
    text.append(stringify_window_descriptor(&window.descriptor).as_str());
    text.append(").apply(");
    text.append(stringify_aggregations(window.aggregations.as_slice()).as_str());
    text.append(")");
    text
}

fn stringify_window_descriptor(desr: &WindowDescriptor) -> (r: String)
    ensures
        r@ == window_descriptor_text(desr@),
{
    match desr {
        WindowDescriptor::TumblingWindow { duration, time_character } => {
            let mut text = String::from_str("TumblingWindow(");
            text.append(stringify_duration(duration).as_str());
            text.append(", ");
            text.append(stringify_time_character(time_character).as_str());
            text.append(")");
            text
        },
    }
}

fn stringify_duration(duration: &Duration) -> (r: String)
    ensures
        r@ == duration_text(*duration),
{
    let mut text = u64_to_string(duration.amount as u64);
    text.append(stringify_time_unit_symbol(&duration.unit).as_str());
    text
}

fn stringify_time_unit_symbol(unit: &TimeUnit) -> (r: String)
    ensures
        r@ == time_unit_symbol(*unit),
{
    match unit {
        TimeUnit::Milliseconds => String::from_str("ms"),
        TimeUnit::Seconds => String::from_str("s"),
        TimeUnit::Minutes => String::from_str("min"),
        TimeUnit::Hours => String::from_str("h"),
        TimeUnit::Days => String::from_str("d"),
    }
}

fn stringify_time_unit(unit: &TimeUnit) -> (r: String)
    ensures
        r@ == unit.name(),
{
    match unit {
        TimeUnit::Milliseconds => String::from_str("Milliseconds"),
        TimeUnit::Seconds => String::from_str("Seconds"),
        TimeUnit::Minutes => String::from_str("Minutes"),
        TimeUnit::Hours => String::from_str("Hours"),
        TimeUnit::Days => String::from_str("Days"),
    }
}

fn stringify_time_character(character: &TimeCharacteristic) -> (r: String)
    ensures
        r@ == time_character_text(character@),
{
    match character {
        TimeCharacteristic::EventTime { field_name, unit } => {
            let mut text = String::from_str("EventTime(\"");
            text.append(field_name.as_str());
            text.append("\", ");
            text.append(stringify_time_unit(unit).as_str());
            text.append(")");
            text
        },
    }
}

fn stringify_aggregations(aggregations: &[Aggregation]) -> (r: String)
    ensures
        r@ == aggregations_text(aggregation_models(aggregations@)),
{
    let mut result = String::new();
    let mut i: usize = 0;
    while i < aggregations.len()
        invariant
            i <= aggregations.len(),
            result@ == aggregations_text(aggregation_models(aggregations@.take(i as int))),
        decreases aggregations.len() - i,
    {
        let agg = &aggregations[i];
        let ghost before = result@;
        let agg_type_str = match agg.agg_type() {
            AggregationType::Sum => "sum",
            AggregationType::Average => "average",
            AggregationType::Min => "min",
            AggregationType::Max => "max",
            AggregationType::Median => "median",
            AggregationType::Count => "count",
        };
        result.append(agg_type_str);
        match (agg.field(), agg.projected_field()) {
            (None, None) => {
                result.append("(), ");
            },
            (None, Some(p)) => {
                result.append("(as(\"");
                result.append(p.name());
                result.append("\")), ");
            },
            (Some(f), None) => {
                result.append("(Field(\"");
                result.append(f.name());
                result.append("\")), ");
            },
            (Some(f), Some(p)) => {
                result.append("(Field(\"");
                result.append(f.name());
                result.append("\").as(\"");
                result.append(p.name());
                result.append("\")), ");
            },
        }
        proof {
            let taken = aggregation_models(aggregations@.take(i + 1));
            assert(taken.drop_last() =~= aggregation_models(aggregations@.take(i as int)));
            assert(taken.last() == agg@);
            assert(result@ =~= before + aggregation_text(agg@));
        }
        i += 1;
    }
    assert(aggregations@.take(i as int) =~= aggregations@);
    result
}

fn stringify_join_operator(join: &Join) -> (r: String)
    ensures
        r@ == operator_text(Operator::Join(*join)@),
    decreases join,
{
    let mut text = stringify_child(&join.child);
    text.append(".join(");
    text.append(stringify_operator(&join.joined_operator).as_str());
    text.append(").where(");
    text.append(stringify_field_expr(&join.lhs).as_str());
    text.append(").equals(");
    text.append(stringify_field_expr(&join.rhs).as_str());
    text.append(").window(");
    text.append(stringify_window_descriptor(&join.window).as_str());
    text.append(")");
    text
}

fn stringify_union_operator(union: &Union) -> (r: String)
    ensures
        r@ == operator_text(Operator::Union(*union)@),
    decreases union,
{
    let mut text = stringify_child(&union.child);
    text.append(".union(");
    text.append(stringify_operator(&union.operator).as_str());
    text.append(")");
    text
}

/// The text of an expression.
pub fn stringify_expr(expr: &RawExpr) -> (r: String)
    ensures
        r@ == expr_text(expr@),
    decreases expr,
{
    match expr {
        RawExpr::Literal(literal) => stringify_literal_expr(literal),
        RawExpr::Field(field) => stringify_field_expr(field),
        RawExpr::Unary(unary) => stringify_unary_expr(unary),
        RawExpr::Binary(binary) => stringify_binary_expr(binary),
    }
}

fn stringify_literal_expr(literal: &Literal) -> (r: String)
    ensures
        r@ == literal@.value,
{
    literal.value().to_owned()
}

fn stringify_field_expr(field: &Field) -> (r: String)
    ensures
        r@ == field_text(field@.name),
{
    let mut text = String::from_str("Field(\"");
    text.append(field.name());
    text.append("\")");
    text
}

fn stringify_unary_expr(expr: &UnaryExpr) -> (r: String)
    ensures
        r@ == expr_text(RawExpr::Unary(*expr)@),
    decreases expr,
{
    let op = match expr.operator {
        UnaryOp::Negate => "!",
        UnaryOp::Absolute => "abs",
    };
    let mut text = String::from_str(op);
    text.append("(");
    text.append(stringify_expr(&expr.expr).as_str());
    text.append(")");
    text
}

fn stringify_binary_expr(expr: &BinaryExpr) -> (r: String)
    ensures
        r@ == expr_text(RawExpr::Binary(*expr)@),
    decreases expr,
{
    let op = match expr.operator {
        BinaryOp::And => "&&",
        BinaryOp::Or => "||",
        BinaryOp::Equals => "==",
        BinaryOp::Greater => ">",
        BinaryOp::GreaterEquals => ">=",
        BinaryOp::Less => "<",
        BinaryOp::LessEquals => "<=",
        BinaryOp::Add => "+",
        BinaryOp::Sub => "-",
        BinaryOp::Multiply => "*",
        BinaryOp::Divide => "/",
        BinaryOp::Remainder => "%",
        BinaryOp::Power => "^",
    };
    let mut text = String::from_str("(");
    text.append(stringify_expr(&expr.lhs).as_str());
    text.append(" ");
    text.append(op);
    text.append(" ");
    text.append(stringify_expr(&expr.rhs).as_str());
    text.append(")");
    text
}

/// The text of a sink.
pub fn stringify_sink(sink: &Sink) -> (r: String)
    ensures
        r@ == sink_text(sink@),
{
    match sink {
        Sink::NullOutput => String::from_str("NullOutputSink"),
        Sink::Print => String::from_str("PrintSink"),
        Sink::File { path, format, append } => {
            let mut text = String::from_str("FileSink(\"");
            text.append(path.as_str());
            text.append("\", ");
            text.append(format.as_str());
            text.append(", ");
            text.append(bool_to_string(*append).as_str());
            text.append(")");
            text
        },
    }
}

} // verus!
