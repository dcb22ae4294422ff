//! Sinks as messages.

use crate::query::sink::{Sink, SinkModel};
use crate::serialization::protobuf::nes::{SinkDetails, SinkDetailsMessage};
use vstd::prelude::*;

verus! {

/// The message of a sink. A file sink never asks for a time stamp in the
/// name of its file.
pub open spec fn serialized_sink_details(sink: SinkModel) -> SinkDetailsMessage {
    match sink {
        SinkModel::NullOutput => SinkDetailsMessage::NullOutput,
        SinkModel::Print => SinkDetailsMessage::Print,
        SinkModel::File { path, format, append } => SinkDetailsMessage::File {
            file_path: path,
            sink_format: format,
            append,
            add_timestamp: false,
        },
    }
}

/// Turns a sink into its message.
pub fn serialize_sink_details(sink: &Sink) -> (r: SinkDetails)
    ensures
        r@ == serialized_sink_details(sink@),
{
    match sink {
        Sink::NullOutput => null_sink_details(),
        Sink::Print => print_sink_details(),
        Sink::File { path, format, append } => file_sink_details(
            path.clone(),
            format.clone(),
            *append,
        ),
    }
}

fn null_sink_details() -> (r: SinkDetails)
    ensures
        r@ == SinkDetailsMessage::NullOutput,
{
    SinkDetails::NullOutput
}

fn print_sink_details() -> (r: SinkDetails)
    ensures
        r@ == SinkDetailsMessage::Print,
{
    SinkDetails::Print
}

fn file_sink_details(file_path: String, sink_format: String, append: bool) -> (r: SinkDetails)
    ensures
        r@ == (SinkDetailsMessage::File {
            file_path: file_path@,
            sink_format: sink_format@,
            append,
            add_timestamp: false,
        }),
{
    SinkDetails::File { file_path, sink_format, append, add_timestamp: false }
}

} // verus!
