//! Aggregations over the events of a window.

use crate::expression::field::{Field, FieldModel};
use vstd::prelude::*;

verus! {

/// The functions that fold the events of a window into one value.
#[derive(Debug, Clone, Copy, PartialEq, Eq, Structural)]
pub enum AggregationType {
    Sum,
    Average,
    Min,
    Max,
    Median,
    Count,
}

/// An aggregation: its function, the field it reads, and the field that its
/// result is written to. A count may read no field: it counts events.
#[derive(Debug, PartialEq)]
pub struct Aggregation {
    field: Option<Field>,
    projected_field: Option<Field>,
    agg_type: AggregationType,
}

/// What an [`Aggregation`] stands for.
pub ghost struct AggregationModel {
    pub field: Option<FieldModel>,
    pub projected_field: Option<FieldModel>,
    pub agg_type: AggregationType,
}

impl AggregationModel {
    /// What holds of every aggregation: it reads a field unless it is a
    /// count.
    pub open spec fn well_formed(self) -> bool {
        self.agg_type == AggregationType::Count || self.field is Some
    }
}

/// What an optional field stands for.
pub open spec fn option_field_model(field: Option<Field>) -> Option<FieldModel> {
    match field {
        Some(field) => Some(field@),
        None => None,
    }
}

impl View for Aggregation {
    type V = AggregationModel;

    closed spec fn view(&self) -> AggregationModel {
        AggregationModel {
            field: option_field_model(self.field),
            projected_field: option_field_model(self.projected_field),
            agg_type: self.agg_type,
        }
    }
}

fn clone_option_field(field: &Option<Field>) -> (r: Option<Field>)
    ensures
        option_field_model(r) == option_field_model(*field),
{
    match field {
        Some(field) => Some(field.clone()),
        None => None,
    }
}

impl Clone for Aggregation {
    fn clone(&self) -> (r: Self)
        ensures
            r@ == self@,
    {
        proof {
            use_type_invariant(self);
        }
        Self {
            field: clone_option_field(&self.field),
            projected_field: clone_option_field(&self.projected_field),
            agg_type: self.agg_type,
        }
    }
}

impl Aggregation {
    #[verifier::type_invariant]
    closed spec fn invariant_holds(self) -> bool {
        self@.well_formed()
    }

    fn over<F: Into<Field>>(field: F, agg_type: AggregationType) -> (r: Self)
        ensures
            r@.well_formed(),
            exists|read: Field| #[trigger]
                call_ensures(F::into, (field,), read) && r@ == (AggregationModel {
                    field: Some(read@),
                    projected_field: None,
                    agg_type,
                }),
    {
        Self { field: Some(field.into()), projected_field: None, agg_type }
    }

    /// The number of events. It reads no field.
    pub fn count() -> (r: Self)
        ensures
            r@.well_formed(),
            r@ == (AggregationModel {
                field: None,
                projected_field: None,
                agg_type: AggregationType::Count,
            }),
    {
        Self { field: None, projected_field: None, agg_type: AggregationType::Count }
    }

    /// The sum of a field.
    pub fn sum<F: Into<Field>>(field: F) -> (r: Self)
        ensures
            r@.well_formed(),
            exists|read: Field| #[trigger]
                call_ensures(F::into, (field,), read) && r@ == (AggregationModel {
                    field: Some(read@),
                    projected_field: None,
                    agg_type: AggregationType::Sum,
                }),
    {
        Self::over(field, AggregationType::Sum)
    }

    /// The mean of a field.
    pub fn average<F: Into<Field>>(field: F) -> (r: Self)
        ensures
            r@.well_formed(),
            exists|read: Field| #[trigger]
                call_ensures(F::into, (field,), read) && r@ == (AggregationModel {
                    field: Some(read@),
                    projected_field: None,
                    agg_type: AggregationType::Average,
                }),
    {
        Self::over(field, AggregationType::Average)
    }

    /// The least value of a field.
    pub fn min<F: Into<Field>>(field: F) -> (r: Self)
        ensures
            r@.well_formed(),
            exists|read: Field| #[trigger]
                call_ensures(F::into, (field,), read) && r@ == (AggregationModel {
                    field: Some(read@),
                    projected_field: None,
                    agg_type: AggregationType::Min,
                }),
    {
        Self::over(field, AggregationType::Min)
    }

    /// The greatest value of a field.
    pub fn max<F: Into<Field>>(field: F) -> (r: Self)
        ensures
            r@.well_formed(),
            exists|read: Field| #[trigger]
                call_ensures(F::into, (field,), read) && r@ == (AggregationModel {
                    field: Some(read@),
                    projected_field: None,
                    agg_type: AggregationType::Max,
                }),
    {
        Self::over(field, AggregationType::Max)
    }

    /// The median of a field.
    pub fn median<F: Into<Field>>(field: F) -> (r: Self)
        ensures
            r@.well_formed(),
            exists|read: Field| #[trigger]
                call_ensures(F::into, (field,), read) && r@ == (AggregationModel {
                    field: Some(read@),
                    projected_field: None,
                    agg_type: AggregationType::Median,
                }),
    {
        Self::over(field, AggregationType::Median)
    }

    /// The same aggregation with its result written to the given field.
    pub fn as_field<F: Into<Field>>(self, field: F) -> (r: Self)
        ensures
            r@.well_formed(),
            exists|written: Field| #[trigger]
                call_ensures(F::into, (field,), written) && r@ == (AggregationModel {
                    projected_field: Some(written@),
                    ..self@
                }),
    {
        proof {
            use_type_invariant(&self);
        }
        Self { field: self.field, projected_field: Some(field.into()), agg_type: self.agg_type }
    }

    /// The field that the aggregation reads.
    pub fn field(&self) -> (r: Option<&Field>)
        ensures
            self@.well_formed(),
            r is Some == self@.field is Some,
            r is Some ==> r.unwrap()@ == self@.field.unwrap(),
    {
        proof {
            use_type_invariant(self);
        }
        self.field.as_ref()
    }

    /// The function of the aggregation.
    pub fn agg_type(&self) -> (r: AggregationType)
        ensures
            r == self@.agg_type,
    {
        self.agg_type
    }

    /// The field that the result is written to.
    pub fn projected_field(&self) -> (r: Option<&Field>)
        ensures
            r is Some == self@.projected_field is Some,
            r is Some ==> r.unwrap()@ == self@.projected_field.unwrap(),
    {
        self.projected_field.as_ref()
    }
}

} // verus!
