//! Queries: the operator tree, its builder, the sinks and the windows.

pub mod expr_gen;
pub mod join;
pub mod operator;
pub mod query;
pub mod sink;
pub mod stringify;
pub mod time;
pub mod window;

pub use query::{Query, QueryBuilder};
