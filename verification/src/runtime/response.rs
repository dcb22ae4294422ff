//! How the answers of the coordinator read. The answers are JSON documents;
//! reading a document is left to `serde_json`, and what is read is named
//! here, so that the rules that give an answer its meaning can be stated.

use crate::query::operator::texts;
use crate::runtime::nebula_stream_runtime::{
    QueryCatalogEntry, QueryCatalogEntryModel, RuntimeError,
};
use crate::runtime::query_state::{
    parse_query_state, parse_state, QueryState, QueryStateParseError,
};
use vstd::prelude::*;
use vstd::string::*;

verus! {

/// A JSON value of `serde_json`. Nothing is known of what it holds but what
/// the functions below read from it.
#[verifier::external_type_specification]
#[verifier::external_body]
pub struct ExJsonValue(serde_json::Value);

/// The JSON document that a text holds, if it holds one.
pub uninterp spec fn json_document(text: Seq<char>) -> Option<serde_json::Value>;

/// The member of a JSON object under a name, if the value is an object that
/// has one.
pub uninterp spec fn json_member(value: serde_json::Value, key: Seq<char>) -> Option<
    serde_json::Value,
>;

/// The truth value that a JSON value is, if it is one.
pub uninterp spec fn json_bool(value: serde_json::Value) -> Option<bool>;

/// Whether a JSON value is a number.
pub uninterp spec fn json_is_number(value: serde_json::Value) -> bool;

/// The whole number of 64 signed bits that a JSON value is, if it is one.
pub uninterp spec fn json_i64(value: serde_json::Value) -> Option<i64>;

/// The text of a JSON value, if it is a string.
pub uninterp spec fn json_text(value: serde_json::Value) -> Option<Seq<char>>;

/// The items of a JSON value, if it is an array.
pub uninterp spec fn json_items(value: serde_json::Value) -> Option<Seq<serde_json::Value>>;

/// The names of the members of a JSON value in the order in which the
/// object holds them, if it is an object.
pub uninterp spec fn json_member_names(value: serde_json::Value) -> Option<Seq<Seq<char>>>;

/// `serde_json::from_str` for a JSON value: the document that the text
/// holds, or nothing where the text is no JSON document.
#[verifier::external_body]
fn parse_json(body: &str) -> (r: Option<serde_json::Value>)
    ensures
        r == json_document(body@),
{
    serde_json::from_str::<serde_json::Value>(body).ok()
}

/// `Value::get` with a name: the member of that name where the value is an
/// object that has one.
#[verifier::external_body]
fn member<'a>(value: &'a serde_json::Value, key: &str) -> (r: Option<&'a serde_json::Value>)
    ensures
        match r {
            Some(found) => json_member(*value, key@) == Some(*found),
            None => json_member(*value, key@) is None,
        },
{
    value.get(key)
}

/// `Value::as_bool`: the truth value where the value is one.
#[verifier::external_body]
fn as_bool(value: &serde_json::Value) -> (r: Option<bool>)
    ensures
        r == json_bool(*value),
{
    value.as_bool()
}

/// `Value::is_number`: whether the value is a number.
#[verifier::external_body]
fn is_number(value: &serde_json::Value) -> (r: bool)
    ensures
        r == json_is_number(*value),
{
    value.is_number()
}

/// `Value::as_i64`: the number where the value is a whole number that 64
/// signed bits hold.
#[verifier::external_body]
fn as_i64(value: &serde_json::Value) -> (r: Option<i64>)
    ensures
        r == json_i64(*value),
{
    value.as_i64()
}

/// `Value::as_str`: the text where the value is a string.
#[verifier::external_body]
fn as_str<'a>(value: &'a serde_json::Value) -> (r: Option<&'a str>)
    ensures
        option_str_text(r) == json_text(*value),
{
    value.as_str()
}

/// `Value::as_array`: the items where the value is an array.
#[verifier::external_body]
fn as_array<'a>(value: &'a serde_json::Value) -> (r: Option<&'a Vec<serde_json::Value>>)
    ensures
        match r {
            Some(items) => json_items(*value) == Some(items@),
            None => json_items(*value) is None,
        },
{
    value.as_array()
}

/// `Value::as_object` and `Map::keys`: the names of the members, in the
/// order of the object, where the value is an object.
#[verifier::external_body]
fn member_names(value: &serde_json::Value) -> (r: Option<Vec<String>>)
    ensures
        match r {
            Some(names) => json_member_names(*value) == Some(texts(names@)),
            None => json_member_names(*value) is None,
        },
{
    value.as_object().map(|object| object.keys().cloned().collect())
}

/// What can be wrong with an answer of the coordinator.
#[derive(Debug)]
pub enum ResponseError {
    /// The answer is no JSON document.
    NotJson,
    /// The answer is no array where a list was asked for.
    NotAnArray,
    /// An item of the list of sources is no object.
    NotAnObject,
    /// An item of the list of sources is an object without members.
    NoSourceName,
    /// There is no number under `queryId`, and no message either.
    NoQueryId,
    /// The number under `queryId` is no whole number of 64 signed bits.
    QueryIdNotI64,
    /// The coordinator refused the query and said why.
    Rejected(String),
    /// A query of the catalog has no string under `queryStatus`.
    NoQueryStatus,
    /// A query of the catalog has no string under `queryString`.
    NoQueryString,
    /// A query of the catalog is in a state of an unknown name.
    UnknownState(QueryStateParseError),
}

/// What a [`ResponseError`] stands for.
pub ghost enum ResponseErrorModel {
    NotJson,
    NotAnArray,
    NotAnObject,
    NoSourceName,
    NoQueryId,
    QueryIdNotI64,
    Rejected(Seq<char>),
    NoQueryStatus,
    NoQueryString,
    UnknownState(Seq<char>),
}

impl View for ResponseError {
    type V = ResponseErrorModel;

    open spec fn view(&self) -> ResponseErrorModel {
        match *self {
            ResponseError::NotJson => ResponseErrorModel::NotJson,
            ResponseError::NotAnArray => ResponseErrorModel::NotAnArray,
            ResponseError::NotAnObject => ResponseErrorModel::NotAnObject,
            ResponseError::NoSourceName => ResponseErrorModel::NoSourceName,
            ResponseError::NoQueryId => ResponseErrorModel::NoQueryId,
            ResponseError::QueryIdNotI64 => ResponseErrorModel::QueryIdNotI64,
            ResponseError::Rejected(message) => ResponseErrorModel::Rejected(message@),
            ResponseError::NoQueryStatus => ResponseErrorModel::NoQueryStatus,
            ResponseError::NoQueryString => ResponseErrorModel::NoQueryString,
            ResponseError::UnknownState(error) => ResponseErrorModel::UnknownState(error@),
        }
    }
}

/// The message of an error.
pub open spec fn error_message(error: ResponseErrorModel) -> Seq<char> {
    match error {
        ResponseErrorModel::NotJson => "Parsing JSON should not fail!"@,
        ResponseErrorModel::NotAnArray => "Body should be a JSON Array!"@,
        ResponseErrorModel::NotAnObject => "Value should be a JSON Object!"@,
        ResponseErrorModel::NoSourceName => "Value should name a logical source!"@,
        ResponseErrorModel::NoQueryId => {
            "The response by the coordinator did not contain a query ID."@
        },
        ResponseErrorModel::QueryIdNotI64 => "Expected query_id to be i64"@,
        ResponseErrorModel::Rejected(message) => "Error message: "@ + message + "."@,
        ResponseErrorModel::NoQueryStatus => {
            "The response by the coordinator did not contain field queryStatus"@
        },
        ResponseErrorModel::NoQueryString => {
            "The response by the coordinator did not contain field queryString"@
        },
        ResponseErrorModel::UnknownState(name) => QueryStateParseError::message(name),
    }
}

impl ResponseError {
    /// The message of the error.
    pub fn to_string(&self) -> (r: String)
        ensures
            r@ == error_message(self@),
    {
        match self {
            ResponseError::NotJson => String::from_str("Parsing JSON should not fail!"),
            ResponseError::NotAnArray => String::from_str("Body should be a JSON Array!"),
            ResponseError::NotAnObject => String::from_str("Value should be a JSON Object!"),
            ResponseError::NoSourceName => String::from_str("Value should name a logical source!"),
            ResponseError::NoQueryId => String::from_str(
                "The response by the coordinator did not contain a query ID.",
            ),
            ResponseError::QueryIdNotI64 => String::from_str("Expected query_id to be i64"),
            ResponseError::Rejected(message) => {
                let mut text = String::from_str("Error message: ");
                text.append(message.as_str());
                text.append(".");
                text
            },
            ResponseError::NoQueryStatus => String::from_str(
                "The response by the coordinator did not contain field queryStatus",
            ),
            ResponseError::NoQueryString => String::from_str(
                "The response by the coordinator did not contain field queryString",
            ),
            ResponseError::UnknownState(error) => error.to_string(),
        }
    }

    /// The error as the runtime reports it: by its message.
    pub fn into_runtime_error(self) -> (r: RuntimeError)
        ensures
            r@ == error_message(self@),
    {
        RuntimeError::new(self.to_string())
    }
}

/// What an optional string slice holds.
pub open spec fn option_str_text(text: Option<&str>) -> Option<Seq<char>> {
    match text {
        Some(text) => Some(text@),
        None => None,
    }
}

/// What an optional list of strings holds.
pub open spec fn option_names(names: Option<Vec<String>>) -> Option<Seq<Seq<char>>> {
    match names {
        Some(names) => Some(texts(names@)),
        None => None,
    }
}

/// What is read from an object under a name where a number is looked for:
/// nothing where there is no number, else the number where it is a whole
/// number of 64 signed bits.
pub open spec fn number_member_of(value: serde_json::Value, key: Seq<char>) -> Option<Option<i64>> {
    match json_member(value, key) {
        Some(number) => if json_is_number(number) {
            Some(json_i64(number))
        } else {
            None
        },
        None => None,
    }
}

/// What is read from an object under a name where a string is looked for.
pub open spec fn string_member_of(value: serde_json::Value, key: Seq<char>) -> Option<Seq<char>> {
    match json_member(value, key) {
        Some(text) => json_text(text),
        None => None,
    }
}

/// Whether an answer confirms that the coordinator can be reached: it holds
/// the truth value `true` under `success`.
pub open spec fn connection_check_of(body: Seq<char>) -> bool {
    match json_document(body) {
        Some(value) => match json_member(value, "success"@) {
            Some(success) => json_bool(success) == Some(true),
            None => false,
        },
        None => false,
    }
}

/// The meaning of what an answer to a submission holds under `queryId` and
/// `message`: with a number it is the identifier of the query, if 64 signed
/// bits hold it; without one the query was refused, with the message or
/// without.
pub open spec fn submission_of(query_id: Option<Option<i64>>, message: Option<Seq<char>>) -> Result<
    i64,
    ResponseErrorModel,
> {
    match query_id {
        Some(Some(id)) => Ok(id),
        Some(None) => Err(ResponseErrorModel::QueryIdNotI64),
        None => match message {
            Some(message) => Err(ResponseErrorModel::Rejected(message)),
            None => Err(ResponseErrorModel::NoQueryId),
        },
    }
}

/// The meaning of an answer to a submission.
pub open spec fn read_submission_of(body: Seq<char>) -> Result<i64, ResponseErrorModel> {
    match json_document(body) {
        Some(value) => submission_of(
            number_member_of(value, "queryId"@),
            string_member_of(value, "message"@),
        ),
        None => Err(ResponseErrorModel::NotJson),
    }
}

/// The query of the catalog that an item stands for, from what the item
/// holds under `queryId`, `queryStatus` and `queryString`. The first of these
/// that is missing or does not read as it should is the error.
pub open spec fn catalog_entry_of(
    query_id: Option<Option<i64>>,
    query_status: Option<Seq<char>>,
    query_string: Option<Seq<char>>,
) -> Result<QueryCatalogEntryModel, ResponseErrorModel> {
    match (query_id, query_status, query_string) {
        (None, _, _) => Err(ResponseErrorModel::NoQueryId),
        (Some(None), _, _) => Err(ResponseErrorModel::QueryIdNotI64),
        (Some(Some(_)), None, _) => Err(ResponseErrorModel::NoQueryStatus),
        (Some(Some(_)), Some(_), None) => Err(ResponseErrorModel::NoQueryString),
        (Some(Some(id)), Some(status), Some(text)) => match parse_query_state(status) {
            Some(state) => Ok(
                QueryCatalogEntryModel { query_id: id, query_status: state, query_string: text },
            ),
            None => Err(ResponseErrorModel::UnknownState(status)),
        },
    }
}

/// The query of the catalog that an item of the answer stands for.
pub open spec fn item_entry_of(item: serde_json::Value) -> Result<
    QueryCatalogEntryModel,
    ResponseErrorModel,
> {
    catalog_entry_of(
        number_member_of(item, "queryId"@),
        string_member_of(item, "queryStatus"@),
        string_member_of(item, "queryString"@),
    )
}

/// The queries that the items stand for, in order, or the error of the
/// first item that stands for none.
pub open spec fn entries_of(items: Seq<serde_json::Value>) -> Result<
    Seq<QueryCatalogEntryModel>,
    ResponseErrorModel,
>
    decreases items.len(),
{
    if items.len() == 0 {
        Ok(Seq::empty())
    } else {
        match entries_of(items.drop_last()) {
            Ok(entries) => match item_entry_of(items.last()) {
                Ok(entry) => Ok(entries.push(entry)),
                Err(error) => Err(error),
            },
            Err(error) => Err(error),
        }
    }
}

/// The meaning of an answer that lists the queries of the catalog.
pub open spec fn registered_queries_of(body: Seq<char>) -> Result<
    Seq<QueryCatalogEntryModel>,
    ResponseErrorModel,
> {
    match json_document(body) {
        Some(value) => match json_items(value) {
            Some(items) => entries_of(items),
            None => Err(ResponseErrorModel::NotAnArray),
        },
        None => Err(ResponseErrorModel::NotJson),
    }
}

/// The name of the source that an item of the list of sources stands for:
/// the first of the names of its members.
pub open spec fn source_name_of(names: Option<Seq<Seq<char>>>) -> Result<
    Seq<char>,
    ResponseErrorModel,
> {
    match names {
        None => Err(ResponseErrorModel::NotAnObject),
        Some(names) => if names.len() == 0 {
            Err(ResponseErrorModel::NoSourceName)
        } else {
            Ok(names[0])
        },
    }
}

/// The names of the sources that the items stand for, in order, or the error
/// of the first item that stands for none.
pub open spec fn source_names_of(items: Seq<serde_json::Value>) -> Result<
    Seq<Seq<char>>,
    ResponseErrorModel,
>
    decreases items.len(),
{
    if items.len() == 0 {
        Ok(Seq::empty())
    } else {
        match source_names_of(items.drop_last()) {
            Ok(names) => match source_name_of(json_member_names(items.last())) {
                Ok(name) => Ok(names.push(name)),
                Err(error) => Err(error),
            },
            Err(error) => Err(error),
        }
    }
}

/// The meaning of an answer that lists the sources.
pub open spec fn logical_sources_of(body: Seq<char>) -> Result<Seq<Seq<char>>, ResponseErrorModel> {
    match json_document(body) {
        Some(value) => match json_items(value) {
            Some(items) => source_names_of(items),
            None => Err(ResponseErrorModel::NotAnArray),
        },
        None => Err(ResponseErrorModel::NotJson),
    }
}

/// What a result with an identifier stands for.
pub open spec fn identifier_result(r: Result<i64, ResponseError>) -> Result<
    i64,
    ResponseErrorModel,
> {
    match r {
        Ok(id) => Ok(id),
        Err(error) => Err(error@),
    }
}

/// What a result with a query of the catalog stands for.
pub open spec fn entry_result(r: Result<QueryCatalogEntry, ResponseError>) -> Result<
    QueryCatalogEntryModel,
    ResponseErrorModel,
> {
    match r {
        Ok(entry) => Ok(entry@),
        Err(error) => Err(error@),
    }
}

/// What a sequence of queries of the catalog stands for.
pub open spec fn entry_models(entries: Seq<QueryCatalogEntry>) -> Seq<QueryCatalogEntryModel> {
    entries.map_values(|e: QueryCatalogEntry| e@)
}

/// What a result with queries of the catalog stands for.
pub open spec fn entries_result(r: Result<Vec<QueryCatalogEntry>, ResponseError>) -> Result<
    Seq<QueryCatalogEntryModel>,
    ResponseErrorModel,
> {
    match r {
        Ok(entries) => Ok(entry_models(entries@)),
        Err(error) => Err(error@),
    }
}

/// What a result with a name stands for.
pub open spec fn name_result(r: Result<String, ResponseError>) -> Result<
    Seq<char>,
    ResponseErrorModel,
> {
    match r {
        Ok(name) => Ok(name@),
        Err(error) => Err(error@),
    }
}

/// What a result with names stands for.
pub open spec fn names_result(r: Result<Vec<String>, ResponseError>) -> Result<
    Seq<Seq<char>>,
    ResponseErrorModel,
> {
    match r {
        Ok(names) => Ok(texts(names@)),
        Err(error) => Err(error@),
    }
}

/// Whether the coordinator said that it can be reached: it did where its
/// answer holds the truth value `true` under `success`.
pub fn connection_confirmed(success: Option<bool>) -> (r: bool)
    ensures
        r == (success == Some(true)),
{
    match success {
        Some(success) => success,
        None => false,
    }
}

/// The identifier that the coordinator gave to a submitted query. `query_id`
/// is what its answer holds under `queryId`: nothing where there is no
/// number, else the number where it is a whole number of 64 signed bits.
/// `message` is the string under `message`, if there is one.
pub fn submission_result(query_id: Option<Option<i64>>, message: Option<&str>) -> (r: Result<
    i64,
    ResponseError,
>)
    ensures
        identifier_result(r) == submission_of(query_id, option_str_text(message)),
{
    match query_id {
        Some(Some(id)) => Ok(id),
        Some(None) => Err(ResponseError::QueryIdNotI64),
        None => match message {
            Some(message) => Err(ResponseError::Rejected(message.to_owned())),
            None => Err(ResponseError::NoQueryId),
        },
    }
}

/// One query of the catalog from what its item holds under `queryId`,
/// `queryStatus` and `queryString`.
pub fn catalog_entry(
    query_id: Option<Option<i64>>,
    query_status: Option<&str>,
    query_string: Option<&str>,
) -> (r: Result<QueryCatalogEntry, ResponseError>)
    ensures
        entry_result(r) == catalog_entry_of(
            query_id,
            option_str_text(query_status),
            option_str_text(query_string),
        ),
{
    let query_id = match query_id {
        None => {
            return Err(ResponseError::NoQueryId);
        },
        Some(None) => {
            return Err(ResponseError::QueryIdNotI64);
        },
        Some(Some(query_id)) => query_id,
    };
    let status_string = match query_status {
        Some(status) => status,
        None => {
            return Err(ResponseError::NoQueryStatus);
        },
    };
    let query_string = match query_string {
        Some(text) => text,
        None => {
            return Err(ResponseError::NoQueryString);
        },
    };
    match parse_state(status_string) {
        Ok(query_status) => Ok(
            QueryCatalogEntry { query_id, query_status, query_string: query_string.to_owned() },
        ),
        Err(error) => Err(ResponseError::UnknownState(error)),
    }
}

/// The state of the first query of the list that has the identifier, or
/// nothing where none has it.
pub fn find_query_status(queries: &[QueryCatalogEntry], query_id: i64) -> (r: Option<QueryState>)
    ensures
        match r {
            Some(state) => exists|i: int|
                0 <= i < queries@.len() && (#[trigger] queries@[i]).query_id == query_id
                    && queries@[i].query_status == state && forall|j: int|
                    0 <= j < i ==> (#[trigger] queries@[j]).query_id != query_id,
            None => forall|j: int|
                0 <= j < queries@.len() ==> (#[trigger] queries@[j]).query_id != query_id,
        },
{
    let mut i: usize = 0;
    while i < queries.len()
        invariant
            i <= queries.len(),
            forall|j: int| 0 <= j < i ==> (#[trigger] queries@[j]).query_id != query_id,
        decreases queries.len() - i,
    {
        if queries[i].query_id == query_id {
            return Some(queries[i].query_status);
        }
        i += 1;
    }
    None
}

/// The name of the source that an item of the list of sources stands for:
/// the first of the names of its members.
pub fn source_name(names: Option<Vec<String>>) -> (r: Result<String, ResponseError>)
    ensures
        name_result(r) == source_name_of(option_names(names)),
{
    match names {
        None => Err(ResponseError::NotAnObject),
        Some(names) => {
            if names.len() == 0 {
                Err(ResponseError::NoSourceName)
            } else {
                Ok(names[0].clone())
            }
        },
    }
}

fn number_member(value: &serde_json::Value, key: &str) -> (r: Option<Option<i64>>)
    ensures
        r == number_member_of(*value, key@),
{
    match member(value, key) {
        Some(number) => {
            if is_number(number) {
                Some(as_i64(number))
            } else {
                None
            }
        },
        None => None,
    }
}

fn string_member<'a>(value: &'a serde_json::Value, key: &str) -> (r: Option<&'a str>)
    ensures
        option_str_text(r) == string_member_of(*value, key@),
{
    match member(value, key) {
        Some(text) => as_str(text),
        None => None,
    }
}

/// Reads the answer to the question whether the coordinator can be
/// reached. Whatever does not read as a confirmation is none.
pub fn read_connection_check(body: &str) -> (r: bool)
    ensures
        r == connection_check_of(body@),
{
    let success = match parse_json(body) {
        Some(value) => match member(&value, "success") {
            Some(success) => as_bool(success),
            None => None,
        },
        None => None,
    };
    connection_confirmed(success)
}

/// Reads the answer to the submission of a query: the identifier of the
/// query, or why there is none.
pub fn read_submission(body: &str) -> (r: Result<i64, ResponseError>)
    ensures
        identifier_result(r) == read_submission_of(body@),
{
    match parse_json(body) {
        Some(value) => submission_result(
            number_member(&value, "queryId"),
            string_member(&value, "message"),
        ),
        None => Err(ResponseError::NotJson),
    }
}

/// Reads the list of the queries that the coordinator knows, in the order
/// of the answer. The first item that does not read as a query is the error.
pub fn read_registered_queries(body: &str) -> (r: Result<Vec<QueryCatalogEntry>, ResponseError>)
    ensures
        entries_result(r) == registered_queries_of(body@),
{
    let value = match parse_json(body) {
        Some(value) => value,
        None => {
            return Err(ResponseError::NotJson);
        },
    };
    let items = match as_array(&value) {
        Some(items) => items,
        None => {
            return Err(ResponseError::NotAnArray);
        },
    };
    let mut queries: Vec<QueryCatalogEntry> = Vec::new();
    let mut i: usize = 0;
    proof {
        assert(items@.take(0).len() == 0);
        assert(entry_models(queries@) =~= Seq::empty());
    }
    while i < items.len()
        invariant
            i <= items.len(),
            entries_of(items@.take(i as int)) == Ok::<
                Seq<QueryCatalogEntryModel>,
                ResponseErrorModel,
            >(entry_models(queries@)),
            registered_queries_of(body@) == entries_of(items@),
        decreases items.len() - i,
    {
        let item = &items[i];
        let entry = catalog_entry(
            number_member(item, "queryId"),
            string_member(item, "queryStatus"),
            string_member(item, "queryString"),
        );
        proof {
            assert(items@.take(i + 1).drop_last() =~= items@.take(i as int));
            assert(items@.take(i + 1).last() == *item);
            if entry is Err {
                lemma_entries_error(items@, i + 1);
            }
        }
        match entry {
            Ok(entry) => {
                let ghost before = queries@;
                queries.push(entry);
                assert(entry_models(queries@) =~= entry_models(before).push(entry@));
            },
            Err(error) => {
                return Err(error);
            },
        }
        i += 1;
    }
    assert(items@.take(i as int) =~= items@);
    Ok(queries)
}

/// An error among the first items is the error of all the items.
proof fn lemma_entries_error(items: Seq<serde_json::Value>, count: int)
    requires
        0 <= count <= items.len(),
        entries_of(items.take(count)) is Err,
    ensures
        entries_of(items) == entries_of(items.take(count)),
    decreases items.len() - count,
{
    if count < items.len() {
        assert(items.take(count + 1).drop_last() =~= items.take(count));
        lemma_entries_error(items, count + 1);
    } else {
        assert(items.take(count) =~= items);
    }
}

/// An error among the first items is the error of all the items.
proof fn lemma_source_names_error(items: Seq<serde_json::Value>, count: int)
    requires
        0 <= count <= items.len(),
        source_names_of(items.take(count)) is Err,
    ensures
        source_names_of(items) == source_names_of(items.take(count)),
    decreases items.len() - count,
{
    if count < items.len() {
        assert(items.take(count + 1).drop_last() =~= items.take(count));
        lemma_source_names_error(items, count + 1);
    } else {
        assert(items.take(count) =~= items);
    }
}

/// Reads the list of the names of the sources that the coordinator knows,
/// in the order of the answer. The first item that names no source is the
/// error.
pub fn read_logical_sources(body: &str) -> (r: Result<Vec<String>, ResponseError>)
    ensures
        names_result(r) == logical_sources_of(body@),
{
    let value = match parse_json(body) {
        Some(value) => value,
        None => {
            return Err(ResponseError::NotJson);
        },
    };
    let items = match as_array(&value) {
        Some(items) => items,
        None => {
            return Err(ResponseError::NotAnArray);
        },
    };
    let mut sources: Vec<String> = Vec::new();
    let mut i: usize = 0;
    proof {
        assert(items@.take(0).len() == 0);
        assert(texts(sources@) =~= Seq::empty());
    }
    while i < items.len()
        invariant
            i <= items.len(),
            source_names_of(items@.take(i as int)) == Ok::<Seq<Seq<char>>, ResponseErrorModel>(
                texts(sources@),
            ),
            logical_sources_of(body@) == source_names_of(items@),
        decreases items.len() - i,
    {
        let name = source_name(member_names(&items[i]));
        proof {
            assert(items@.take(i + 1).drop_last() =~= items@.take(i as int));
            assert(items@.take(i + 1).last() == items@[i as int]);
            if name is Err {
                lemma_source_names_error(items@, i + 1);
            }
        }
        match name {
            Ok(name) => {
                let ghost before = sources@;
                sources.push(name);
                assert(texts(sources@) =~= texts(before).push(name@));
            },
            Err(error) => {
                return Err(error);
            },
        }
        i += 1;
    }
    assert(items@.take(i as int) =~= items@);
    Ok(sources)
}

} // verus!
