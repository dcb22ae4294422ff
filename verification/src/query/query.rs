//! Queries and the builder that assembles them step by step.

use crate::expression::field::Field;
use crate::expression::{ArithmeticExpr, LogicalExpr};
use crate::query::join::JoinWhereBuilder;
use crate::query::operator::{
    aggregation_models, field_models, option_texts, texts, Filter, FieldMap,
    Operator, OperatorIterator, OperatorModel, Projection, Union, Window,
};
use crate::query::sink::{Sink, SinkModel};
use crate::query::window::aggregation::Aggregation;
use crate::query::window::window_descriptor::{WindowDescriptor, WindowDescriptorModel};
use vstd::prelude::*;

verus! {

/// A finished query: an operator tree and the sink that takes its results.
#[derive(Debug)]
pub struct Query {
    operator: Operator,
    sink: Sink,
}

/// What a [`Query`] stands for.
pub ghost struct QueryModel {
    pub operator: OperatorModel,
    pub sink: SinkModel,
}

impl View for Query {
    type V = QueryModel;

    closed spec fn view(&self) -> QueryModel {
        QueryModel { operator: self.operator@, sink: self.sink@ }
    }
}

/// A query under construction: the operator tree built so far. Each step
/// puts a new node above the tree and makes the tree its child.
#[derive(Debug)]
pub struct QueryBuilder {
    operator: Operator,
}

impl Clone for Query {
    fn clone(&self) -> (r: Self)
        ensures
            r@ == self@,
    {
        proof {
            use_type_invariant(self);
        }
        Query { operator: self.operator.clone(), sink: self.sink.clone() }
    }
}

impl Clone for QueryBuilder {
    fn clone(&self) -> (r: Self)
        ensures
            r@ == self@,
    {
        proof {
            use_type_invariant(self);
        }
        QueryBuilder { operator: self.operator.clone() }
    }
}

impl View for QueryBuilder {
    type V = OperatorModel;

    closed spec fn view(&self) -> OperatorModel {
        self.operator@
    }
}

/// A query builder that waits for the aggregations of a window.
#[derive(Debug)]
pub struct WindowedQueryBuilder {
    query_builder: QueryBuilder,
    key_fields: Option<Vec<String>>,
    descriptor: WindowDescriptor,
}

/// What a [`WindowedQueryBuilder`] stands for.
pub ghost struct WindowedQueryBuilderModel {
    /// The operator tree below the window.
    pub operator: OperatorModel,
    /// The key fields named so far, in order; nothing before the first.
    pub key_fields: Option<Seq<Seq<char>>>,
    /// The window.
    pub descriptor: WindowDescriptorModel,
}

impl View for WindowedQueryBuilder {
    type V = WindowedQueryBuilderModel;

    closed spec fn view(&self) -> WindowedQueryBuilderModel {
        WindowedQueryBuilderModel {
            operator: self.query_builder@,
            key_fields: option_texts(self.key_fields),
            descriptor: self.descriptor@,
        }
    }
}

/// The key fields after one more was named.
pub open spec fn with_key(keys: Option<Seq<Seq<char>>>, key: Seq<char>) -> Option<Seq<Seq<char>>> {
    match keys {
        Some(keys) => Some(keys.push(key)),
        None => Some(seq![key]),
    }
}

impl WindowedQueryBuilder {
    /// Names one more key field.
    pub fn by_key<S: Into<String>>(self, key: S) -> (r: Self)
        ensures
            exists|text: String| #[trigger]
                call_ensures(S::into, (key,), text) && r@ == (WindowedQueryBuilderModel {
                    key_fields: with_key(self@.key_fields, text@),
                    ..self@
                }),
    {
        let mut builder = self;
        let key: String = key.into();
        match builder.key_fields {
            Some(key_fields) => {
                let mut key_fields = key_fields;
                key_fields.push(key);
                assert(texts(key_fields@) =~= texts(self.key_fields->Some_0@).push(key@));
                builder.key_fields = Some(key_fields);
            },
            None => {
                let mut key_fields = Vec::new();
                key_fields.push(key);
                assert(texts(key_fields@) =~= seq![key@]);
                builder.key_fields = Some(key_fields);
            },
        }
        builder
    }

    /// Puts the window with the given aggregations above the tree.
    pub fn apply(self, aggregation: Vec<Aggregation>) -> (r: QueryBuilder)
        ensures
            r@.ends_in_sources(),
            r@ == (OperatorModel::Window {
                descriptor: self@.descriptor,
                aggregations: aggregation_models(aggregation@),
                key_fields: self@.key_fields,
                child: Some(Box::new(self@.operator)),
            }),
    {
        proof {
            use_type_invariant(&self.query_builder);
        }
        let child_operator = self.query_builder.operator;
        QueryBuilder {
            operator: Operator::Window(
                Window {
                    child: Some(Box::new(child_operator)),
                    descriptor: self.descriptor,
                    aggregations: aggregation,
                    key_fields: self.key_fields,
                },
            ),
        }
    }
}

impl Query {
    #[verifier::type_invariant]
    closed spec fn invariant_holds(self) -> bool {
        self.operator@.ends_in_sources()
    }

    /// The root of the operator tree. Every branch of the tree ends in a
    /// source.
    pub fn operator(&self) -> (r: &Operator)
        ensures
            r@ == self@.operator,
            r@.ends_in_sources(),
    {
        proof {
            use_type_invariant(self);
        }
        &self.operator
    }

    /// A walk from the root along the chain of first inputs.
    pub fn operators(&self) -> (r: OperatorIterator<'_>)
        ensures
            r@ == self@.operator.chain(),
    {
        self.operator.iter()
    }

    /// The sink.
    pub fn sink(&self) -> (r: &Sink)
        ensures
            r@ == self@.sink,
    {
        &self.sink
    }

    /// Replaces the sink.
    pub fn set_sink(&mut self, sink: Sink)
        ensures
            final(self)@ == (QueryModel { operator: old(self)@.operator, sink: sink@ }),
    {
        proof {
            use_type_invariant(&*self);
        }
        self.sink = sink;
    }

    /// A builder whose tree is the named source.
    pub fn from_source<S: Into<String>>(source_name: S) -> (r: QueryBuilder)
        ensures
            r@.ends_in_sources(),
            exists|text: String| #[trigger]
                call_ensures(S::into, (source_name,), text) && r@ == (OperatorModel::LogicalSource {
                    source_name: text@,
                }),
    {
        QueryBuilder::from_source(source_name)
    }
}

impl QueryBuilder {
    #[verifier::type_invariant]
    closed spec fn invariant_holds(self) -> bool {
        self.operator@.ends_in_sources()
    }

    /// A builder whose tree is the named source.
    pub fn from_source<S: Into<String>>(source_name: S) -> (r: Self)
        ensures
            r@.ends_in_sources(),
            exists|text: String| #[trigger]
                call_ensures(S::into, (source_name,), text) && r@ == (OperatorModel::LogicalSource {
                    source_name: text@,
                }),
    {
        let operator = Operator::LogicalSource { source_name: source_name.into() };
        QueryBuilder { operator }
    }

    /// The query of the tree built so far with the given sink.
    pub fn sink(self, sink: Sink) -> (r: Query)
        ensures
            r@ == (QueryModel { operator: self@, sink: sink@ }),
            self@.ends_in_sources(),
    {
        proof {
            use_type_invariant(&self);
        }
        Query { sink, operator: self.operator }
    }

    /// Puts a filter above the tree.
    pub fn filter(self, expression: LogicalExpr) -> (r: Self)
        ensures
            r@.ends_in_sources(),
            r@ == (OperatorModel::Filter { expression: expression@, child: Some(Box::new(self@)) }),
    {
        proof {
            use_type_invariant(&self);
        }
        let child_operator = self.operator;
        QueryBuilder {
            operator: Operator::Filter(Filter { child: Some(Box::new(child_operator)), expression }),
        }
    }

    /// Puts a map above the tree: the value of the expression is written to
    /// the assigned field, be it new or not.
    pub fn map<S: Into<String>>(self, assigned_field: S, expression: ArithmeticExpr) -> (r: Self)
        ensures
            r@.ends_in_sources(),
            exists|text: String| #[trigger]
                call_ensures(S::into, (assigned_field,), text) && r@ == (OperatorModel::FieldMap {
                    assigned_field: text@,
                    expression: expression@,
                    child: Some(Box::new(self@)),
                }),
    {
        proof {
            use_type_invariant(&self);
        }
        let child_operator = self.operator;
        QueryBuilder {
            operator: Operator::FieldMap(
                FieldMap {
                    child: Some(Box::new(child_operator)),
                    assigned_field: assigned_field.into(),
                    expression,
                },
            ),
        }
    }

    /// Starts a window above the tree. The window is finished by its
    /// aggregations.
    pub fn window(self, descriptor: WindowDescriptor) -> (r: WindowedQueryBuilder)
        ensures
            r@ == (WindowedQueryBuilderModel {
                operator: self@,
                key_fields: None,
                descriptor: descriptor@,
            }),
    {
        WindowedQueryBuilder { query_builder: self, descriptor, key_fields: None }
    }

    /// Puts a projection to the given fields above the tree.
    pub fn project(self, fields: Vec<Field>) -> (r: Self)
        ensures
            r@.ends_in_sources(),
            r@ == (OperatorModel::Projection {
                fields: field_models(fields@),
                child: Some(Box::new(self@)),
            }),
    {
        proof {
            use_type_invariant(&self);
        }
        let child_operator = self.operator;
        QueryBuilder {
            operator: Operator::Projection(
                Projection { fields, child: Some(Box::new(child_operator)) },
            ),
        }
    }

    /// Starts a join of the tree with the tree of another builder. The join
    /// is finished by its two fields and its window.
    pub fn join_with(self, query: Self) -> (r: JoinWhereBuilder)
        ensures
            r.left() == self@,
            r.right() == query@,
    {
        JoinWhereBuilder::new(self, query)
    }

    /// Puts a union with the tree of another builder above the tree.
    pub fn union(self, query: Self) -> (r: Self)
        ensures
            r@.ends_in_sources(),
            r@ == (OperatorModel::Union {
                operator: Box::new(query@),
                child: Some(Box::new(self@)),
            }),
    {
        proof {
            use_type_invariant(&self);
            use_type_invariant(&query);
        }
        let child_operator = self.operator;
        QueryBuilder {
            operator: Operator::Union(
                Union { child: Some(Box::new(child_operator)), operator: Box::new(query.operator) },
            ),
        }
    }

    /// The tree built so far.
    pub(crate) fn into_operator(self) -> (r: Operator)
        ensures
            r@ == self@,
            r@.ends_in_sources(),
    {
        proof {
            use_type_invariant(&self);
        }
        self.operator
    }

    /// The builder of a tree.
    pub(crate) fn from_operator(operator: Operator) -> (r: Self)
        requires
            operator@.ends_in_sources(),
        ensures
            r@ == operator@,
    {
        QueryBuilder { operator }
    }
}

} // verus!
