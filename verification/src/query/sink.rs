//! The destinations that a query writes its results to.

use std::path::Path;
use vstd::prelude::*;
use vstd::string::*;

verus! {

/// Where the results of a query go.
#[derive(Debug, PartialEq)]
pub enum Sink {
    /// The results are dropped.
    NullOutput,
    /// The results are printed.
    Print,
    /// The results are written to a file.
    File { path: String, format: String, append: bool },
}

/// What a [`Sink`] stands for.
pub ghost enum SinkModel {
    NullOutput,
    Print,
    File { path: Seq<char>, format: Seq<char>, append: bool },
}

impl View for Sink {
    type V = SinkModel;

    open spec fn view(&self) -> SinkModel {
        match *self {
            Sink::NullOutput => SinkModel::NullOutput,
            Sink::Print => SinkModel::Print,
            Sink::File { path, format, append } => SinkModel::File {
                path: path@,
                format: format@,
                append,
            },
        }
    }
}

impl Clone for Sink {
    fn clone(&self) -> (r: Self)
        ensures
            r@ == self@,
    {
        match self {
            Sink::NullOutput => Sink::NullOutput,
            Sink::Print => Sink::Print,
            Sink::File { path, format, append } => Sink::File {
                path: path.clone(),
                format: format.clone(),
                append: *append,
            },
        }
    }
}

/// `Path::to_string_lossy` of the standard library, on whatever can be read
/// as a path: the text of the path, as an owned string.
#[verifier::external_body]
fn path_text<P: AsRef<Path>>(path: P) -> (r: String) {
    path.as_ref().to_string_lossy().into_owned()
}

impl Sink {
    /// The sink that drops the results.
    pub fn null() -> (r: Self)
        ensures
            r@ == SinkModel::NullOutput,
    {
        Sink::NullOutput
    }

    /// The sink that prints the results.
    pub fn print() -> (r: Self)
        ensures
            r@ == SinkModel::Print,
    {
        Sink::Print
    }

    /// The sink that writes the results as comma-separated values to the
    /// file at `path`, behind what the file holds if `append` is set.
    pub fn csv_file<P: AsRef<Path>>(path: P, append: bool) -> (r: Self)
        ensures
            r@ is File,
            r@->format == "CSV_FORMAT"@,
            r@->append == append,
    {
        Sink::File { path: path_text(path), format: String::from_str("CSV_FORMAT"), append }
    }
}

} // verus!
