//! Windows, their keys and their aggregations as messages.

use crate::expression::field::{Field, FieldModel};
use crate::query::operator::{aggregation_models, texts};
use crate::query::time::{TimeCharacteristic, TimeCharacteristicModel};
use crate::query::window::aggregation::{Aggregation, AggregationModel, AggregationType};
use crate::query::window::window_descriptor::{WindowDescriptor, WindowDescriptorModel};
use crate::serialization::protobuf::nes::{
    aggregation_messages, expression_messages, AggregationKind,
    AggregationMessage, ExpressionMessage, SerializableAggregation, SerializableExpression,
    SerializableTimeCharacteristic, SerializableWindowType, TimeCharacteristicKind,
    TimeCharacteristicMessage, WindowTypeMessage,
};
use crate::serialization::protobuf::serialize_expression::{serialize_field, serialized_field};
use crate::types::NesType;
use vstd::prelude::*;

verus! {

/// The message of the time that a window goes by: the field that holds the
/// time, and the number of milliseconds in one unit of it.
pub open spec fn serialized_time_characteristic(
    time_character: TimeCharacteristicModel,
) -> TimeCharacteristicMessage {
    match time_character {
        TimeCharacteristicModel::EventTime { field_name, unit } => TimeCharacteristicMessage {
            kind: TimeCharacteristicKind::EventTime,
            field: field_name,
            multiplier: unit.spec_to_scalar() as u64,
        },
    }
}

/// The message of a window: its length is given in milliseconds.
pub open spec fn serialized_window_descriptor(descriptor: WindowDescriptorModel) -> WindowTypeMessage {
    match descriptor {
        WindowDescriptorModel::TumblingWindow {
            duration,
            time_character,
        } => WindowTypeMessage::TumblingWindow {
            time_characteristic: serialized_time_characteristic(time_character),
            size: duration.spec_to_milliseconds() as u64,
        },
    }
}

/// The tag of an aggregation function.
pub open spec fn aggregation_kind(agg_type: AggregationType) -> AggregationKind {
    match agg_type {
        AggregationType::Sum => AggregationKind::Sum,
        AggregationType::Average => AggregationKind::Avg,
        AggregationType::Min => AggregationKind::Min,
        AggregationType::Max => AggregationKind::Max,
        AggregationType::Median => AggregationKind::Median,
        AggregationType::Count => AggregationKind::Count,
    }
}

/// The field of unknown type with the given name.
pub open spec fn untyped_field(name: Seq<char>) -> FieldModel {
    FieldModel { name, projected_name: None, data_type: NesType::Undefined }
}

/// The field that a count without a field is said to read.
pub open spec fn count_field() -> FieldModel {
    untyped_field("count"@)
}

/// The message of the field that an aggregation reads: its own field, or
/// the count field for a count that has none.
pub open spec fn serialized_on_field(aggregation: AggregationModel) -> Option<ExpressionMessage> {
    match aggregation.field {
        Some(field) => Some(serialized_field(field)),
        None => if aggregation.agg_type == AggregationType::Count {
            Some(serialized_field(count_field()))
        } else {
            None
        },
    }
}

/// The message of an aggregation. Its result is written to the field that
/// it was given for that, or else to the field that it reads.
pub open spec fn serialized_aggregation(aggregation: AggregationModel) -> AggregationMessage {
    AggregationMessage {
        kind: aggregation_kind(aggregation.agg_type),
        on_field: serialized_on_field(aggregation),
        as_field: match aggregation.projected_field {
            Some(field) => Some(serialized_field(field)),
            None => serialized_on_field(aggregation),
        },
    }
}

/// The messages of a sequence of aggregations, in order.
pub open spec fn serialized_aggregations(aggregations: Seq<AggregationModel>) -> Seq<
    AggregationMessage,
> {
    aggregations.map_values(|a: AggregationModel| serialized_aggregation(a))
}

/// The messages of the key fields of a window, in order: each a field of
/// unknown type.
pub open spec fn serialized_window_keys(keys: Seq<Seq<char>>) -> Seq<ExpressionMessage> {
    keys.map_values(|key: Seq<char>| serialized_field(untyped_field(key)))
}

/// Turns a window into its message.
pub fn serialize_window_descriptor(descriptor: &WindowDescriptor) -> (r: SerializableWindowType)
    ensures
        r@ == serialized_window_descriptor(descriptor@),
{
    match descriptor {
        WindowDescriptor::TumblingWindow {
            duration,
            time_character,
        } => SerializableWindowType::TumblingWindow {
            time_characteristic: serialize_time_characteristic(time_character),
            size: duration.to_milliseconds(),
        },
    }
}

/// Turns the time that a window goes by into its message.
pub fn serialize_time_characteristic(time_character: &TimeCharacteristic) -> (r:
    SerializableTimeCharacteristic)
    ensures
        r@ == serialized_time_characteristic(time_character@),
{
    match time_character {
        TimeCharacteristic::EventTime { field_name, unit } => SerializableTimeCharacteristic {
            kind: TimeCharacteristicKind::EventTime,
            field: field_name.clone(),
            multiplier: unit.to_scalar() as u64,
        },
    }
}

/// Turns aggregations into their messages, in order. Every message names
/// the field that is read and the field that is written.
pub fn serialize_aggregations(aggregations: &[Aggregation]) -> (r: Vec<SerializableAggregation>)
    ensures
        aggregation_messages(r@) == serialized_aggregations(aggregation_models(aggregations@)),
        forall|i: int|
            0 <= i < r@.len() ==> (#[trigger] r@[i]).on_field is Some && r@[i].as_field is Some,
{
    let mut result: Vec<SerializableAggregation> = Vec::new();
    let mut i: usize = 0;
    while i < aggregations.len()
        invariant
            i <= aggregations.len(),
            result@.len() == i,
            forall|j: int|
                0 <= j < i ==> (#[trigger] result@[j])@ == serialized_aggregation(
                    aggregations@[j]@,
                ),
            forall|j: int|
                0 <= j < i ==> (#[trigger] result@[j]).on_field is Some && result@[j].as_field
                    is Some,
        decreases aggregations.len() - i,
    {
        let message = serialize_aggregation(&aggregations[i]);
        result.push(message);
        i += 1;
    }
    assert(aggregation_messages(result@) =~= serialized_aggregations(
        aggregation_models(aggregations@),
    ));
    result
}

fn serialize_aggregation(aggregation: &Aggregation) -> (r: SerializableAggregation)
    ensures
        r@ == serialized_aggregation(aggregation@),
        r.on_field is Some,
        r.as_field is Some,
{
    let on_field = match aggregation.field() {
        Some(field) => Some(serialize_field(field)),
        None => match aggregation.agg_type() {
            AggregationType::Count => Some(serialize_field(&Field::from("count"))),
            _ => None,
        },
    };
    let as_field = match aggregation.projected_field() {
        Some(field) => Some(serialize_field(field)),
        None => match &on_field {
            Some(field) => Some(field.clone()),
            None => None,
        },
    };
    SerializableAggregation {
        kind: serialize_aggregation_type(aggregation.agg_type()),
        as_field,
        on_field,
    }
}

fn serialize_aggregation_type(agg_type: AggregationType) -> (r: AggregationKind)
    ensures
        r == aggregation_kind(agg_type),
{
    match agg_type {
        AggregationType::Sum => AggregationKind::Sum,
        AggregationType::Average => AggregationKind::Avg,
        AggregationType::Min => AggregationKind::Min,
        AggregationType::Max => AggregationKind::Max,
        AggregationType::Median => AggregationKind::Median,
        AggregationType::Count => AggregationKind::Count,
    }
}

/// Turns the key fields of a window into their messages, in order.
pub fn serialize_window_keys(key_field: &[String]) -> (r: Vec<SerializableExpression>)
    ensures
        expression_messages(r@) == serialized_window_keys(texts(key_field@)),
{
    let mut result: Vec<SerializableExpression> = Vec::new();
    let mut i: usize = 0;
    while i < key_field.len()
        invariant
            i <= key_field.len(),
            result@.len() == i,
            forall|j: int|
                0 <= j < i ==> (#[trigger] result@[j])@ == serialized_field(
                    untyped_field(key_field@[j]@),
                ),
        decreases key_field.len() - i,
    {
        let message = serialize_field(&Field::from(key_field[i].as_str()));
        result.push(message);
        i += 1;
    }
    assert(expression_messages(result@) =~= serialized_window_keys(texts(key_field@)));
    result
}

} // verus!
