//! The names that most users of the library need.

pub use crate::expression::binary_expression::BinaryExpr;
pub use crate::expression::binary_expression::BinaryOp;
pub use crate::expression::field::Field;
pub use crate::expression::literal::Literal;
pub use crate::expression::unary_expression::UnaryExpr;
pub use crate::expression::unary_expression::UnaryOp;
pub use crate::expression::ExprBuilder;
pub use crate::query::sink::Sink;
pub use crate::query::window::aggregation::Aggregation;
pub use crate::query::window::aggregation::AggregationType;
pub use crate::query::window::window_descriptor::WindowDescriptor;
pub use crate::query::Query;
pub use crate::query::QueryBuilder;
pub use crate::runtime::nebula_stream_runtime::NebulaStreamRuntime;
pub use crate::runtime::nebula_stream_runtime::PlacementStrategy;
pub use crate::runtime::query_state::QueryState;
pub use crate::runtime::query_state::QueryStateParseError;
