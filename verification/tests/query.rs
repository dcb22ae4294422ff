use nes_rust_client::expression::{ExprBuilder as EB, Field};
use nes_rust_client::prelude::{
    Aggregation, AggregationType, NebulaStreamRuntime, PlacementStrategy, Query, QueryBuilder,
    QueryState, Sink, WindowDescriptor,
};
use nes_rust_client::query::operator::Operator;
use nes_rust_client::query::stringify::{stringify_expr, stringify_query, stringify_sink};
use nes_rust_client::query::time::{Duration, TimeCharacteristic, TimeUnit};
use nes_rust_client::runtime::nebula_stream_runtime::RuntimeError;
use nes_rust_client::runtime::query_state::parse_state;
use nes_rust_client::runtime::response::{
    catalog_entry, connection_confirmed, find_query_status, read_connection_check,
    read_logical_sources, read_registered_queries, read_submission, source_name,
    submission_result, ResponseError,
};
use nes_rust_client::text::{bool_to_string, i64_to_string, str_eq, u64_to_string};
use std::path::PathBuf;

fn window() -> WindowDescriptor {
    WindowDescriptor::TumblingWindow {
        duration: Duration::from_minutes(10),
        time_character: TimeCharacteristic::EventTime {
            field_name: "timestamp".to_string(),
            unit: TimeUnit::Seconds,
        },
    }
}

#[test]
fn test_csv_file_sink() {
    let string_path = "result.log".to_string();
    let path = PathBuf::from("result.log");
    let sink0 = Sink::csv_file(string_path, true);
    let sink1 = Sink::csv_file(path, true);
    let expected_sink = Sink::File {
        path: "result.log".to_string(),
        format: "CSV_FORMAT".to_string(),
        append: true,
    };
    assert_eq!(expected_sink, sink0);
    assert_eq!(expected_sink, sink1);
}

#[test]
fn sinks_by_constructor() {
    assert_eq!(Sink::null(), Sink::NullOutput);
    assert_eq!(Sink::print(), Sink::Print);
    assert_eq!(
        Sink::csv_file("a/b.csv", false),
        Sink::File { path: "a/b.csv".to_string(), format: "CSV_FORMAT".to_string(), append: false }
    );
    assert_eq!(Sink::print().clone(), Sink::Print);
}

#[test]
fn durations_in_milliseconds() {
    assert_eq!(TimeUnit::Milliseconds.to_scalar(), 1);
    assert_eq!(TimeUnit::Seconds.to_scalar(), 1_000);
    assert_eq!(TimeUnit::Minutes.to_scalar(), 60_000);
    assert_eq!(TimeUnit::Hours.to_scalar(), 3_600_000);
    assert_eq!(TimeUnit::Days.to_scalar(), 86_400_000);
    assert_eq!(Duration::from_milliseconds(7).to_milliseconds(), 7);
    assert_eq!(Duration::from_seconds(10).to_milliseconds(), 10_000);
    assert_eq!(Duration::from_minutes(3).to_milliseconds(), 180_000);
    assert_eq!(Duration::from_hours(2).to_milliseconds(), 7_200_000);
    assert_eq!(Duration::from_days(1).to_milliseconds(), 86_400_000);
    assert_eq!(Duration::from_days(u32::MAX).to_milliseconds(), 4294967295u64 * 86_400_000);
    assert_eq!(Duration::from_days(0).to_milliseconds(), 0);
    let d = Duration::from_hours(5);
    assert_eq!(d.amount(), 5);
    assert_eq!(d.unit(), TimeUnit::Hours);
    assert_eq!(TimeUnit::default(), TimeUnit::Milliseconds);
    assert_eq!(TimeUnit::Milliseconds.to_string(), "Milliseconds");
    assert_eq!(TimeUnit::Seconds.to_string(), "Seconds");
    assert_eq!(TimeUnit::Minutes.to_string(), "Minutes");
    assert_eq!(TimeUnit::Hours.to_string(), "Hours");
    assert_eq!(TimeUnit::Days.to_string(), "Days");
}

#[test]
fn the_builder_puts_each_step_above_the_tree() {
    let query = QueryBuilder::from_source("s")
        .filter(EB::literal(true).build_logical().unwrap())
        .map("m", EB::literal(1).build_arith().unwrap())
        .project(vec![Field::untyped("m")])
        .sink(Sink::Print);
    let names: Vec<&str> = {
        let mut names = Vec::new();
        let mut iter = query.operators();
        while let Some(op) = iter.next() {
            names.push(match op {
                Operator::LogicalSource { .. } => "source",
                Operator::Projection(_) => "projection",
                Operator::Filter(_) => "filter",
                Operator::FieldMap(_) => "map",
                Operator::Window(_) => "window",
                Operator::Join(_) => "join",
                Operator::Union(_) => "union",
            });
        }
        assert!(iter.next().is_none());
        assert!(iter.next().is_none());
        names
    };
    assert_eq!(names, vec!["projection", "map", "filter", "source"]);
    assert!(query.operator().has_child());
    assert_eq!(query.sink(), &Sink::Print);
    assert_eq!(query.operator().node_count(), Some(4));
    let mut query = query;
    query.set_sink(Sink::NullOutput);
    assert_eq!(query.sink(), &Sink::NullOutput);
    assert_eq!(query.operator().node_count(), Some(4));
}

#[test]
fn the_chain_does_not_enter_second_inputs() {
    let other = QueryBuilder::from_source("b").filter(EB::literal(true).build_logical().unwrap());
    let query = Query::from_source("a").union(other).sink(Sink::Print);
    let mut iter = query.operator().iter();
    assert!(matches!(iter.next(), Some(Operator::Union(_))));
    match iter.next() {
        Some(Operator::LogicalSource { source_name }) => assert_eq!(source_name, "a"),
        other => panic!("the source was expected, not {:?}", other),
    }
    assert!(iter.next().is_none());
    let source = QueryBuilder::from_source("a").sink(Sink::Print);
    assert!(!source.operator().has_child());
    assert!(source.operator().child().is_none());
    assert_eq!(source.operator().node_count(), Some(1));
    assert_eq!(query.operator().node_count(), Some(4));
}

#[test]
fn windows_take_keys_and_aggregations() {
    let query = QueryBuilder::from_source("s")
        .window(window())
        .by_key("a")
        .by_key("b")
        .apply(vec![Aggregation::count(), Aggregation::sum("v").as_field("total")])
        .sink(Sink::Print);
    match query.operator() {
        Operator::Window(w) => {
            assert_eq!(w.key_fields, Some(vec!["a".to_string(), "b".to_string()]));
            assert_eq!(w.aggregations.len(), 2);
            assert_eq!(w.aggregations[0].agg_type(), AggregationType::Count);
            assert_eq!(w.aggregations[0].field(), None);
            assert_eq!(w.aggregations[0].projected_field(), None);
            assert_eq!(w.aggregations[1].agg_type(), AggregationType::Sum);
            assert_eq!(w.aggregations[1].field(), Some(&Field::untyped("v")));
            assert_eq!(w.aggregations[1].projected_field(), Some(&Field::untyped("total")));
            assert_eq!(w.descriptor, window());
            assert!(matches!(w.child.as_deref(), Some(Operator::LogicalSource { .. })));
        }
        other => panic!("a window was expected, not {:?}", other),
    }
    let no_keys = QueryBuilder::from_source("s").window(window()).apply(vec![]).sink(Sink::Print);
    match no_keys.operator() {
        Operator::Window(w) => {
            assert_eq!(w.key_fields, None);
            assert!(w.aggregations.is_empty());
        }
        other => panic!("a window was expected, not {:?}", other),
    }
    assert_eq!(Aggregation::average("x").agg_type(), AggregationType::Average);
    assert_eq!(Aggregation::min("x").agg_type(), AggregationType::Min);
    assert_eq!(Aggregation::max("x").agg_type(), AggregationType::Max);
    assert_eq!(Aggregation::median("x").agg_type(), AggregationType::Median);
    assert_eq!(Aggregation::median("x").clone(), Aggregation::median("x"));
}

#[test]
fn queries_as_text() {
    let query = QueryBuilder::from_source("cars")
        .filter(
            EB::field("speed")
                .greater_than(EB::literal(100))
                .and(EB::field("ok").not())
                .build_logical()
                .unwrap(),
        )
        .map("n", EB::literal(1).build_arith().unwrap())
        .project(vec![Field::untyped("a"), Field::untyped("b").rename("c")])
        .window(window())
        .by_key("k")
        .apply(vec![
            Aggregation::count(),
            Aggregation::count().as_field("n"),
            Aggregation::sum("v"),
            Aggregation::max("v").as_field("top"),
        ])
        .union(QueryBuilder::from_source("bikes"))
        .sink(Sink::csv_file("out.csv", true));
    assert_eq!(
        stringify_query(&query),
        "logical_source(\"cars\")\
         .filter(((Field(\"speed\") > 100) && !(Field(\"ok\"))))\
         .map(n, 1)\
         .project(Field(\"a\"), Field(\"b\").as(\"c\"), )\
         .window(TumblingWindow(10min, EventTime(\"timestamp\", Seconds)))\
         .apply(count(), count(as(\"n\")), sum(Field(\"v\")), max(Field(\"v\").as(\"top\")), )\
         .union(logical_source(\"bikes\"))\
         .sink(FileSink(\"out.csv\", CSV_FORMAT, true));"
    );
    let join = QueryBuilder::from_source("l")
        .join_with(QueryBuilder::from_source("r"))
        .where_field("a")
        .equals("b")
        .window(window())
        .sink(Sink::Print);
    assert_eq!(
        stringify_query(&join),
        "logical_source(\"l\").join(logical_source(\"r\")).where(Field(\"a\"))\
         .equals(Field(\"b\")).window(TumblingWindow(10min, EventTime(\"timestamp\", Seconds)))\
         .sink(PrintSink);"
    );
    assert_eq!(stringify_sink(&Sink::NullOutput), "NullOutputSink");
    assert_eq!(stringify_sink(&Sink::Print), "PrintSink");
    assert_eq!(
        stringify_sink(&Sink::csv_file("x", false)),
        "FileSink(\"x\", CSV_FORMAT, false)"
    );
    let expr = EB::literal(1).less_equals(EB::literal(2)).or(EB::literal(false)).build_logical().unwrap();
    assert_eq!(stringify_expr(&expr.0), "((1 <= 2) || false)");
}

#[test]
fn numbers_as_decimal_text() {
    assert_eq!(u64_to_string(0), "0");
    assert_eq!(u64_to_string(9), "9");
    assert_eq!(u64_to_string(10), "10");
    assert_eq!(u64_to_string(1234567890), "1234567890");
    assert_eq!(u64_to_string(u64::MAX), "18446744073709551615");
    assert_eq!(i64_to_string(0), "0");
    assert_eq!(i64_to_string(-1), "-1");
    assert_eq!(i64_to_string(-100), "-100");
    assert_eq!(i64_to_string(i64::MAX), "9223372036854775807");
    assert_eq!(i64_to_string(i64::MIN), "-9223372036854775808");
    for n in [-1000i64, -999, -11, -10, -9, 5, 99, 100, 101, 65535, 1 << 40] {
        assert_eq!(i64_to_string(n), n.to_string());
    }
    assert_eq!(bool_to_string(true), "true");
    assert_eq!(bool_to_string(false), "false");
    assert!(str_eq("abc", "abc"));
    assert!(!str_eq("abc", "abd"));
    assert!(!str_eq("abc", "ab"));
    assert!(str_eq("", ""));
}

#[test]
fn query_states_by_name() {
    let names = [
        ("REGISTERED", QueryState::Registered, "Registered"),
        ("OPTIMIZING", QueryState::Optimizing, "Optimizing"),
        ("MARKED_FOR_DEPLOYMENT", QueryState::MarkedForDeployment, "MarkedForDeployment"),
        ("MARKED_FOR_REDEPLOYMENT", QueryState::MarkedForRedeployment, "MarkedForRedeployment"),
        ("MARKED_FOR_MIGRATION", QueryState::MarkedForMigration, "MarkedForMigration"),
        ("DEPLOYED", QueryState::Deployed, "Deployed"),
        ("REDEPLOYED", QueryState::Redeployed, "Redeployed"),
        ("RUNNING", QueryState::Running, "Running"),
        ("MIGRATING", QueryState::Migrating, "Migrating"),
        ("MARKED_FOR_HARD_STOP", QueryState::MarkedForHardStop, "MarkedForHardStop"),
        ("MARKED_FOR_SOFT_STOP", QueryState::MarkedForSoftStop, "MarkedForSoftStop"),
        ("SOFT_STOP_TRIGGERED", QueryState::SoftStopTriggered, "SoftStopTriggered"),
        ("SOFT_STOP_COMPLETED", QueryState::SoftStopCompleted, "SoftStopCompleted"),
        ("STOPPED", QueryState::Stopped, "Stopped"),
        ("MARKED_FOR_FAILURE", QueryState::MarkedForFailure, "MarkedForFailure"),
        ("FAILED", QueryState::Failed, "Failed"),
        ("RESTARTING", QueryState::Restarting, "Restarting"),
        ("MIGRATION_COMPLETED", QueryState::MigrationCompleted, "MigrationCompleted"),
        ("EXPLAINED", QueryState::Explained, "Explained"),
    ];
    for (wire, state, shown) in names {
        assert_eq!(QueryState::try_from(wire).unwrap(), state);
        assert_eq!(QueryState::try_from(wire.to_string()).unwrap(), state);
        assert_eq!(QueryState::try_from(&wire.to_string()).unwrap(), state);
        assert_eq!(parse_state(wire).unwrap(), state);
        assert_eq!(state.to_string(), shown);
    }
    let error = QueryState::try_from("running").unwrap_err();
    assert_eq!(
        error.to_string(),
        "Unable to parse running as Query State. Unknown State!"
    );
    assert!(QueryState::try_from("").is_err());
    assert!(QueryState::try_from("RUNNING ").is_err());
}

#[test]
fn the_runtime_knows_the_address_of_the_coordinator() {
    let runtime = NebulaStreamRuntime::new("localhost", 8081);
    assert_eq!(
        runtime.coordinator_url("/v1/nes/connectivity/check"),
        "http://localhost:8081/v1/nes/connectivity/check"
    );
    assert_eq!(NebulaStreamRuntime::new(String::from("h"), 0).coordinator_url(""), "http://h:0");
    let query = runtime.from_source("s").sink(Sink::Print);
    assert!(matches!(query.operator(), Operator::LogicalSource { .. }));
    assert_eq!(PlacementStrategy::BottomUp.to_string(), "BottomUp");
    assert_eq!(RuntimeError::new("x".to_string()).to_string(), "x");
}

#[test]
fn answers_of_the_coordinator() {
    assert!(read_connection_check("{\"success\": true}"));
    assert!(!read_connection_check("{\"success\": false}"));
    assert!(!read_connection_check("{\"success\": \"true\"}"));
    assert!(!read_connection_check("{}"));
    assert!(!read_connection_check("not json"));
    assert!(connection_confirmed(Some(true)));
    assert!(!connection_confirmed(Some(false)));
    assert!(!connection_confirmed(None));

    assert_eq!(read_submission("{\"queryId\": 42}").unwrap(), 42);
    assert_eq!(read_submission("{\"queryId\": -3, \"message\": \"m\"}").unwrap(), -3);
    assert!(matches!(read_submission("{\"queryId\": 1.5}"), Err(ResponseError::QueryIdNotI64)));
    assert!(matches!(
        read_submission("{\"queryId\": 18446744073709551615}"),
        Err(ResponseError::QueryIdNotI64)
    ));
    match read_submission("{\"queryId\": \"7\", \"message\": \"no such source\"}") {
        Err(error) => {
            assert!(matches!(&error, ResponseError::Rejected(m) if m == "no such source"));
            assert_eq!(error.to_string(), "Error message: no such source.");
            assert_eq!(error.into_runtime_error().to_string(), "Error message: no such source.");
        }
        Ok(id) => panic!("no identifier was sent, but {} was read", id),
    }
    match read_submission("{\"other\": 1}") {
        Err(error) => {
            assert!(matches!(error, ResponseError::NoQueryId));
            assert_eq!(
                error.to_string(),
                "The response by the coordinator did not contain a query ID."
            );
        }
        Ok(id) => panic!("no identifier was sent, but {} was read", id),
    }
    assert!(matches!(read_submission("{"), Err(ResponseError::NotJson)));
    assert_eq!(submission_result(Some(Some(5)), Some("m")).unwrap(), 5);
    assert_eq!(
        submission_result(Some(None), None).unwrap_err().to_string(),
        "Expected query_id to be i64"
    );

    let catalog = "[{\"queryId\": 1, \"queryStatus\": \"RUNNING\", \"queryString\": \"q1\"},\
                    {\"queryId\": 2, \"queryStatus\": \"STOPPED\", \"queryString\": \"q2\"},\
                    {\"queryId\": 1, \"queryStatus\": \"FAILED\", \"queryString\": \"q3\"}]";
    let queries = read_registered_queries(catalog).unwrap();
    assert_eq!(queries.len(), 3);
    assert_eq!(queries[0].query_id, 1);
    assert_eq!(queries[0].query_status, QueryState::Running);
    assert_eq!(queries[0].query_string, "q1");
    assert_eq!(queries[1].query_status, QueryState::Stopped);
    assert_eq!(find_query_status(&queries, 1), Some(QueryState::Running));
    assert_eq!(find_query_status(&queries, 2), Some(QueryState::Stopped));
    assert_eq!(find_query_status(&queries, 3), None);
    assert_eq!(find_query_status(&[], 1), None);
    assert!(read_registered_queries("[]").unwrap().is_empty());
    assert!(matches!(read_registered_queries("{}"), Err(ResponseError::NotAnArray)));
    assert!(matches!(read_registered_queries("]"), Err(ResponseError::NotJson)));
    assert!(matches!(
        read_registered_queries("[{\"queryStatus\": \"RUNNING\", \"queryString\": \"q\"}]"),
        Err(ResponseError::NoQueryId)
    ));
    assert!(matches!(
        read_registered_queries("[{\"queryId\": 0.5, \"queryStatus\": \"RUNNING\"}]"),
        Err(ResponseError::QueryIdNotI64)
    ));
    assert!(matches!(
        read_registered_queries("[{\"queryId\": 1, \"queryString\": \"q\"}]"),
        Err(ResponseError::NoQueryStatus)
    ));
    assert!(matches!(
        read_registered_queries("[{\"queryId\": 1, \"queryStatus\": \"RUNNING\"}]"),
        Err(ResponseError::NoQueryString)
    ));
    match read_registered_queries("[{\"queryId\": 1, \"queryStatus\": \"ODD\", \"queryString\": \"q\"}]") {
        Err(error) => assert_eq!(
            error.to_string(),
            "Unable to parse ODD as Query State. Unknown State!"
        ),
        Ok(_) => panic!("the state has no known name"),
    }
    assert!(matches!(
        catalog_entry(Some(Some(1)), Some("RUNNING"), None),
        Err(ResponseError::NoQueryString)
    ));
    let entry = catalog_entry(Some(Some(9)), Some("DEPLOYED"), Some("text")).unwrap();
    assert_eq!(entry.query_id, 9);
    assert_eq!(entry.query_status, QueryState::Deployed);
    assert_eq!(entry.query_string, "text");

    assert_eq!(
        read_logical_sources("[{\"cars\": \"schema\"}, {\"bikes\": \"schema\"}]").unwrap(),
        vec!["cars".to_string(), "bikes".to_string()]
    );
    assert!(read_logical_sources("[]").unwrap().is_empty());
    assert!(matches!(read_logical_sources("[1]"), Err(ResponseError::NotAnObject)));
    assert!(matches!(read_logical_sources("[{}]"), Err(ResponseError::NoSourceName)));
    assert!(matches!(read_logical_sources("3"), Err(ResponseError::NotAnArray)));
    assert!(matches!(read_logical_sources("[{"), Err(ResponseError::NotJson)));
    assert_eq!(source_name(Some(vec!["a".to_string(), "b".to_string()])).unwrap(), "a");
    assert_eq!(
        source_name(None).unwrap_err().to_string(),
        "Value should be a JSON Object!"
    );
    assert_eq!(
        source_name(Some(vec![])).unwrap_err().to_string(),
        "Value should name a logical source!"
    );
    assert_eq!(ResponseError::NotJson.to_string(), "Parsing JSON should not fail!");
    assert_eq!(ResponseError::NotAnArray.to_string(), "Body should be a JSON Array!");
    assert_eq!(
        ResponseError::NoQueryStatus.to_string(),
        "The response by the coordinator did not contain field queryStatus"
    );
    assert_eq!(
        ResponseError::NoQueryString.to_string(),
        "The response by the coordinator did not contain field queryString"
    );
}
