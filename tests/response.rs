use trino::json::{Json, JsonNumber};
use trino::response::{Info, NodeVersion, QueryResults, QueryState, QueryStats};

fn zero_stats_json(state: &str) -> String {
    format!(
        r#"{{
            "state": "{}",
            "queued": true,
            "scheduled": false,
            "nodes": 0,
            "totalSplits": 0,
            "queuedSplits": 0,
            "runningSplits": 0,
            "completedSplits": 0,
            "cpuTimeMillis": 0,
            "wallTimeMillis": 0,
            "queuedTimeMillis": 0,
            "elapsedTimeMillis": 0,
            "processedRows": 0,
            "processedBytes": 0,
            "physicalInputBytes": 0,
            "peakMemoryBytes": 0,
            "spilledBytes": 0
        }}"#,
        state
    )
}

#[test]
fn deserialize_initial_response() {
    let res = QueryResults::from_text(
        r#"
            {
              "id": "19991231_000000_00000_00000",
              "infoUri": "http://localhost:8080/ui/query.html?19991231_000000_00000_00000",
              "nextUri": "http://localhost:8080/v1/statement/queued/19991231_000000_00000_00000/.../1",
              "stats": {
                "state": "QUEUED",
                "queued": true,
                "scheduled": false,
                "nodes": 0,
                "totalSplits": 0,
                "queuedSplits": 0,
                "runningSplits": 0,
                "completedSplits": 0,
                "cpuTimeMillis": 0,
                "wallTimeMillis": 0,
                "queuedTimeMillis": 0,
                "elapsedTimeMillis": 0,
                "processedRows": 0,
                "processedBytes": 0,
                "physicalInputBytes": 0,
                "peakMemoryBytes": 0,
                "spilledBytes": 0
              },
              "warnings": []
            }"#,
    )
    .unwrap();
    let exp = QueryResults {
        id: String::from("19991231_000000_00000_00000"),
        info_uri: String::from("http://localhost:8080/ui/query.html?19991231_000000_00000_00000"),
        partial_cancel_uri: None,
        next_uri: Some(String::from(
            "http://localhost:8080/v1/statement/queued/19991231_000000_00000_00000/.../1",
        )),
        columns: None,
        data: None,
        stats: QueryStats {
            state: QueryState::Queued,
            queued: true,
            scheduled: false,
            nodes: 0,
            total_splits: 0,
            queued_splits: 0,
            running_splits: 0,
            completed_splits: 0,
            cpu_time_millis: 0,
            wall_time_millis: 0,
            queued_time_millis: 0,
            elapsed_time_millis: 0,
            processed_rows: 0,
            processed_bytes: 0,
            physical_input_bytes: 0,
            peak_memory_bytes: 0,
            spilled_bytes: 0,
            root_stage: None,
            progress_percentage: None,
        },
        warnings: vec![],
    };
    assert_eq!(res, exp);
}

#[test]
fn deserialize_info_response() {
    let res = Info::from_text(
        r#"
            {
              "nodeVersion": {
                "version": "360"
              },
              "environment": "docker",
              "coordinator": true,
              "starting": false,
              "uptime": "1.00m"
            }"#,
    )
    .unwrap();
    let exp = Info {
        node_version: NodeVersion { version: String::from("360") },
        environment: String::from("docker"),
        coordinator: true,
        starting: false,
        uptime: String::from("1.00m"),
    };
    assert_eq!(res, exp);
}

#[test]
fn every_state_name_decodes() {
    let names = [
        ("ABORTED", QueryState::Aborted),
        ("FAILED", QueryState::Failed),
        ("FINISHED", QueryState::Finished),
        ("FINISHING", QueryState::Finishing),
        ("FLUSHING", QueryState::Flushing),
        ("QUEUED", QueryState::Queued),
        ("RUNNING", QueryState::Running),
        ("SCHEDULED", QueryState::Scheduled),
    ];
    for (name, state) in names {
        assert_eq!(QueryState::from_wire(&String::from(name)), Some(state));
        let stats = QueryStats::from_json(trino::parse::json_from_text(&zero_stats_json(name)).unwrap());
        assert_eq!(stats.unwrap().state, state);
    }
}

#[test]
fn unknown_state_name_is_refused() {
    for name in ["PLANNING", "queued", "Queued", ""] {
        assert_eq!(QueryState::from_wire(&String::from(name)), None);
        let text = zero_stats_json(name);
        assert!(QueryStats::from_json(trino::parse::json_from_text(&text).unwrap()).is_none());
    }
}

#[test]
fn page_with_columns_data_and_stage_tree() {
    let text = format!(
        r#"{{
            "id": "q7",
            "infoUri": "http://h/ui",
            "partialCancelUri": "http://h/cancel/0",
            "nextUri": null,
            "columns": [
                {{"name": "n", "type": "bigint",
                  "typeSignature": {{"rawType": "bigint", "arguments": []}}}},
                {{"name": "s", "type": "varchar(3)",
                  "typeSignature": {{"rawType": "varchar",
                    "arguments": [{{"kind": "LONG", "value": 3}}]}}}}
            ],
            "data": [[1, "a"], [-2, null]],
            "stats": {},
            "warnings": ["slow"]
        }}"#,
        zero_stats_json("RUNNING").replace(
            "\"spilledBytes\": 0",
            r#""spilledBytes": 0,
            "progressPercentage": 12.5,
            "rootStage": {
                "stageId": "0", "state": "RUNNING", "done": false, "nodes": 1,
                "totalSplits": 4, "queuedSplits": 1, "runningSplits": 2, "completedSplits": 1,
                "cpuTimeMillis": 5, "wallTimeMillis": 6, "processedRows": 7, "processedBytes": 8,
                "physicalInputBytes": 9,
                "subStages": [{
                    "stageId": "1", "state": "FINISHED", "done": true, "nodes": 1,
                    "totalSplits": 1, "queuedSplits": 0, "runningSplits": 0, "completedSplits": 1,
                    "cpuTimeMillis": 1, "wallTimeMillis": 1, "processedRows": 3, "processedBytes": 4,
                    "physicalInputBytes": 4, "subStages": []
                }]
            }"#
        )
    );
    let page = QueryResults::from_text(&text).unwrap();
    assert_eq!(page.id, "q7");
    assert_eq!(page.partial_cancel_uri, Some(String::from("http://h/cancel/0")));
    assert_eq!(page.next_uri, None);
    let columns = page.columns.unwrap();
    assert_eq!(columns.len(), 2);
    assert_eq!(columns[1].sql_type, "varchar(3)");
    assert_eq!(columns[1].type_signature.raw_type, "varchar");
    assert_eq!(columns[1].type_signature.arguments[0].kind, "LONG");
    assert_eq!(columns[1].type_signature.arguments[0].value, Json::Number(JsonNumber::Unsigned(3)));
    let data = page.data.unwrap();
    assert_eq!(
        data[1],
        Json::Array(vec![Json::Number(JsonNumber::Negative(-2)), Json::Null])
    );
    assert_eq!(page.warnings, vec![String::from("slow")]);
    assert_eq!(page.stats.progress_percentage, Some(JsonNumber::Decimal(String::from("12.5"))));
    let root = page.stats.root_stage.unwrap();
    assert_eq!(root.total_splits, 4);
    assert_eq!(root.sub_stages.len(), 1);
    assert_eq!(root.sub_stages[0].state, QueryState::Finished);
    assert!(root.sub_stages[0].done);
    assert_eq!(root.sub_stages[0].processed_rows, 3);
}

#[test]
fn missing_required_field_fails() {
    let text = format!(r#"{{"infoUri": "u", "stats": {}, "warnings": []}}"#, zero_stats_json("QUEUED"));
    assert!(QueryResults::from_text(&text).is_none());
    let text = format!(r#"{{"id": "q", "infoUri": "u", "stats": {}}}"#, zero_stats_json("QUEUED"));
    assert!(QueryResults::from_text(&text).is_none());
}

#[test]
fn wrongly_shaped_field_fails() {
    let text = format!(r#"{{"id": 5, "infoUri": "u", "stats": {}, "warnings": []}}"#, zero_stats_json("QUEUED"));
    assert!(QueryResults::from_text(&text).is_none());
    let text = format!(r#"{{"id": "q", "infoUri": "u", "data": {{}}, "stats": {}, "warnings": []}}"#, zero_stats_json("QUEUED"));
    assert!(QueryResults::from_text(&text).is_none());
    let text = zero_stats_json("QUEUED").replace("\"nodes\": 0", "\"nodes\": -1");
    assert!(QueryStats::from_json(trino::parse::json_from_text(&text).unwrap()).is_none());
}

#[test]
fn malformed_text_fails() {
    assert!(QueryResults::from_text("{\"id\": ").is_none());
    assert!(trino::parse::json_from_text("not json").is_none());
    assert!(Info::from_text("[]").is_none());
}

#[test]
fn parsed_text_holds_the_document() {
    let j = trino::parse::json_from_text(r#"{"a": [true, "x", 18446744073709551615]}"#).unwrap();
    assert_eq!(
        j,
        Json::Object(vec![(
            String::from("a"),
            Json::Array(vec![
                Json::Bool(true),
                Json::Str(String::from("x")),
                Json::Number(JsonNumber::Unsigned(u64::MAX)),
            ])
        )])
    );
}

fn fixture_with(extra: &str, stats: &str) -> String {
    format!(
        r#"{{"id": "q1", "infoUri": "http://h/ui", {} "stats": {}, "warnings": ["w1", "w2"]}}"#,
        extra, stats
    )
}

fn assert_round_trip(text: &str) {
    let decoded = QueryResults::from_text(text).unwrap();
    let again = QueryResults::from_json(QueryResults::from_text(text).unwrap().into_json()).unwrap();
    assert_eq!(again, decoded);
}

#[test]
fn round_trip_queued_response() {
    assert_round_trip(&fixture_with(r#""nextUri": "http://h/v1/statement/queued/q1/1","#, &zero_stats_json("QUEUED")));
}

#[test]
fn round_trip_columns_and_data() {
    let extra = r#""partialCancelUri": "http://h/c", "nextUri": "http://h/2",
        "columns": [{"name": "x", "type": "decimal(3,1)", "typeSignature": {"rawType": "decimal",
            "arguments": [{"kind": "LONG", "value": 3}, {"kind": "LONG", "value": 1}]}}],
        "data": [[1.5], [null], [-7]],"#;
    assert_round_trip(&fixture_with(extra, &zero_stats_json("RUNNING")));
}

#[test]
fn round_trip_stage_tree() {
    let stats = zero_stats_json("RUNNING").replace(
        "\"spilledBytes\": 0",
        r#""spilledBytes": 0, "progressPercentage": 50, "rootStage": {
            "stageId": "0", "state": "RUNNING", "done": false, "nodes": 1, "totalSplits": 2,
            "queuedSplits": 0, "runningSplits": 1, "completedSplits": 1, "cpuTimeMillis": 3,
            "wallTimeMillis": 4, "processedRows": 5, "processedBytes": 6, "physicalInputBytes": 7,
            "subStages": [
                {"stageId": "1", "state": "FLUSHING", "done": false, "nodes": 1, "totalSplits": 1,
                 "queuedSplits": 0, "runningSplits": 1, "completedSplits": 0, "cpuTimeMillis": 1,
                 "wallTimeMillis": 1, "processedRows": 1, "processedBytes": 1, "physicalInputBytes": 1,
                 "subStages": [
                    {"stageId": "2", "state": "SCHEDULED", "done": false, "nodes": 0, "totalSplits": 0,
                     "queuedSplits": 0, "runningSplits": 0, "completedSplits": 0, "cpuTimeMillis": 0,
                     "wallTimeMillis": 0, "processedRows": 0, "processedBytes": 0,
                     "physicalInputBytes": 0, "subStages": []}]},
                {"stageId": "3", "state": "FINISHED", "done": true, "nodes": 1, "totalSplits": 1,
                 "queuedSplits": 0, "runningSplits": 0, "completedSplits": 1, "cpuTimeMillis": 1,
                 "wallTimeMillis": 1, "processedRows": 1, "processedBytes": 1, "physicalInputBytes": 1,
                 "subStages": []}]}"#,
    );
    let text = fixture_with(r#""nextUri": "http://h/3","#, &stats);
    assert_round_trip(&text);
    let root = QueryResults::from_text(&text).unwrap().stats.root_stage.unwrap();
    assert_eq!(root.sub_stages[0].sub_stages[0].stage_id, "2");
    assert_eq!(root.sub_stages[1].state, QueryState::Finished);
}

#[test]
fn round_trip_terminal_response() {
    let text = fixture_with(r#""data": [[2, "b"]],"#, &zero_stats_json("FINISHED"));
    assert_round_trip(&text);
    assert_eq!(QueryResults::from_text(&text).unwrap().next_uri, None);
}

#[test]
fn encoded_state_names() {
    assert_eq!(QueryState::Finishing.wire_text(), "FINISHING");
    assert_eq!(QueryState::Aborted.wire_text(), "ABORTED");
}
