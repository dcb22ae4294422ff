//! The query plan as a map of operator messages, and the functions that
//! produce it from a query.

pub mod nes;
pub mod serialize_data_type;
pub mod serialize_expression;
pub mod serialize_sink;
pub mod serialize_window;
pub mod serialize_operator;
pub mod serialize_query;
pub mod plan_shape;
