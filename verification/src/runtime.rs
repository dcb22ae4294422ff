//! What the client knows of the coordinator: where it is, the states of its
//! queries, and how its answers read.

pub mod query_state;
pub mod nebula_stream_runtime;
pub mod response;
