//! Client-side construction, type checking and flattening of stream queries.
//!
//! A query is built step by step: expressions by the
//! [`ExprBuilder`](expression::ExprBuilder), which infers and checks their
//! types, and the operator tree by the [`QueryBuilder`](query::QueryBuilder).
//! The finished [`Query`](query::Query) is flattened into a plan of numbered
//! operator messages by
//! [`serialize_query`](serialization::protobuf::serialize_query::serialize_query).
//! The library never runs a query.
//!
//! Every function states what it returns over a model of its arguments: a
//! text is a sequence of characters, a tree is a tree over texts. The
//! functions of other crates that the library calls are named where they are
//! called, with what is taken on trust of them.

pub mod expression;
pub mod prelude;
pub mod query;
pub mod runtime;
pub mod serialization;
pub mod text;
pub mod types;
