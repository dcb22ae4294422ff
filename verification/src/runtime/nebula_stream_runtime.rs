//! The address of the coordinator and the values that its interface
//! exchanges with the client.

use crate::query::operator::OperatorModel;
use crate::query::query::QueryBuilder;
use crate::runtime::query_state::QueryState;
use crate::text::{decimal, i64_to_string};
use vstd::prelude::*;
use vstd::string::*;

verus! {

/// How the coordinator places the operators of a query on its workers.
#[derive(Debug, Clone, Copy, PartialEq, Eq, Structural)]
pub enum PlacementStrategy {
    BottomUp,
}

impl PlacementStrategy {
    /// The name of the strategy.
    pub open spec fn name(self) -> Seq<char> {
        match self {
            PlacementStrategy::BottomUp => "BottomUp"@,
        }
    }

    /// The name of the strategy.
    pub fn to_string(&self) -> (r: String)
        ensures
            r@ == self.name(),
    {
        match self {
            PlacementStrategy::BottomUp => String::from_str("BottomUp"),
        }
    }
}

/// What went wrong in an exchange with the coordinator, in words.
#[derive(Debug)]
pub struct RuntimeError(String);

impl View for RuntimeError {
    type V = Seq<char>;

    closed spec fn view(&self) -> Seq<char> {
        self.0@
    }
}

impl RuntimeError {
    /// The error with the given message.
    pub fn new(message: String) -> (r: Self)
        ensures
            r@ == message@,
    {
        RuntimeError(message)
    }

    /// The message of the error.
    pub fn to_string(&self) -> (r: String)
        ensures
            r@ == self@,
    {
        self.0.clone()
    }
}

/// One query as the coordinator lists it.
#[derive(Debug)]
pub struct QueryCatalogEntry {
    pub query_id: i64,
    pub query_status: QueryState,
    pub query_string: String,
}

/// What a [`QueryCatalogEntry`] stands for.
pub ghost struct QueryCatalogEntryModel {
    pub query_id: i64,
    pub query_status: QueryState,
    pub query_string: Seq<char>,
}

impl View for QueryCatalogEntry {
    type V = QueryCatalogEntryModel;

    open spec fn view(&self) -> QueryCatalogEntryModel {
        QueryCatalogEntryModel {
            query_id: self.query_id,
            query_status: self.query_status,
            query_string: self.query_string@,
        }
    }
}

/// Where the coordinator listens.
#[derive(Debug)]
pub struct NebulaStreamConfig {
    host: String,
    port: String,
}

/// The client's side of the coordinator's interface.
pub struct NebulaStreamRuntime {
    config: NebulaStreamConfig,
}

/// What a [`NebulaStreamRuntime`] stands for: the host and the port of the
/// coordinator, each as text.
pub ghost struct RuntimeModel {
    pub host: Seq<char>,
    pub port: Seq<char>,
}

impl View for NebulaStreamRuntime {
    type V = RuntimeModel;

    closed spec fn view(&self) -> RuntimeModel {
        RuntimeModel { host: self.config.host@, port: self.config.port@ }
    }
}

/// The address of an end point of the coordinator.
pub open spec fn url_text(runtime: RuntimeModel, end_point: Seq<char>) -> Seq<char> {
    "http://"@ + runtime.host + ":"@ + runtime.port + end_point
}

impl NebulaStreamRuntime {
    /// The runtime for the coordinator at the given host and port.
    pub fn new<S: Into<String>>(host: S, port: i32) -> (r: Self)
        ensures
            exists|text: String| #[trigger]
                call_ensures(S::into, (host,), text) && r@ == (RuntimeModel {
                    host: text@,
                    port: decimal(port as int),
                }),
    {
        let config = NebulaStreamConfig { host: host.into(), port: i64_to_string(port as i64) };
        Self { config }
    }

    /// A query builder whose tree is the named source.
    pub fn from_source<S: Into<String>>(&self, source_name: S) -> (r: QueryBuilder)
        ensures
            r@.ends_in_sources(),
            exists|text: String| #[trigger]
                call_ensures(S::into, (source_name,), text) && r@ == (OperatorModel::LogicalSource {
                    source_name: text@,
                }),
    {
        QueryBuilder::from_source(source_name)
    }

    /// The address of an end point of the coordinator.
    pub fn coordinator_url(&self, end_point: &str) -> (r: String)
        ensures
            r@ == url_text(self@, end_point@),
    {
        let mut url = String::from_str("http://");
        url.append(self.config.host.as_str());
        url.append(":");
        url.append(self.config.port.as_str());
        url.append(end_point);
        url
    }
}

} // verus!
