//! Flattening of queries into the messages that the coordinator takes.

pub mod protobuf;
