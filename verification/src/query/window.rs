//! Windows over a stream and the aggregations applied to them.

pub mod aggregation;
pub mod window_descriptor;
