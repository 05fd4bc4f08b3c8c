use falkordb_cli::client::{
    json_document, labels_query, relationship_types_query, render_csv, render_json, render_raw,
    render_table, ConnectionConfig, FalkorCli, OutputMode,
};
use falkordb_cli::error::CommandError;
use falkordb_cli::json::Json;
use falkordb_cli::outcome::{ExecutionTime, QueryOutcome, Statistics};
use falkordb_cli::output::{texts_of, Line, Span, Style};
use falkordb_cli::text::{
    char_is_whitespace, fit, i64_to_string, join, repeat, trim, u64_to_string,
};

fn session(format: &str, quiet: bool, raw: bool) -> FalkorCli {
    let config = ConnectionConfig {
        hostname: "localhost".to_string(),
        port: 6379,
        database: 0,
        username: None,
        auth: None,
    };
    FalkorCli::new(&config, format.to_string(), quiet, raw).unwrap()
}

fn strings(items: &[&str]) -> Vec<String> {
    items.iter().map(|s| s.to_string()).collect()
}

fn nothing_reported(header: &[&str]) -> QueryOutcome {
    QueryOutcome { header: strings(header), stats: Vec::new(), execution_time: None }
}

fn reported() -> QueryOutcome {
    QueryOutcome {
        header: strings(&["name", "age"]),
        stats: strings(&[
            "Nodes created: 2",
            "Properties set: 4",
            "Relationships deleted: 7",
            "Query internal execution time: 0.523417 milliseconds",
        ]),
        execution_time: Some(ExecutionTime {
            millis: "0.523".to_string(),
            number: "0.523417".to_string(),
        }),
    }
}

#[test]
fn the_table_without_statistics_shows_zeros_and_no_time() {
    let cli = session("table", false, false);
    let lines = cli.display_as_table(&nothing_reported(&[]));
    assert_eq!(
        texts_of(&lines),
        vec![
            "Statistics:",
            "  Nodes created: 0",
            "  Nodes deleted: 0",
            "  Relationships created: 0",
            "  Relationships deleted: 0",
            "  Properties set: 0",
            "",
        ]
    );
    assert_eq!(lines[0].spans[0].style, Style::Heading);
    assert!(lines[6].spans.is_empty());
}

#[test]
fn the_table_with_statistics_and_columns() {
    let cli = session("table", false, false);
    let lines = cli.display_query_result(&reported()).unwrap();
    assert_eq!(
        texts_of(&lines),
        vec![
            "Statistics:",
            "  Nodes created: 2",
            "  Nodes deleted: 0",
            "  Relationships created: 0",
            "  Relationships deleted: 7",
            "  Properties set: 4",
            "  Query internal execution time: 0.523 milliseconds",
            "",
            "| name            | age             | ",
            "|-----------------+-----------------+",
            "| Data available but iteration requires mutable access |",
        ]
    );
    let header_row = &lines[8];
    assert_eq!(
        header_row.spans,
        vec![
            Span { text: "| ".to_string(), style: Style::Plain },
            Span { text: "name           ".to_string(), style: Style::Heading },
            Span { text: " | ".to_string(), style: Style::Plain },
            Span { text: "age            ".to_string(), style: Style::Heading },
            Span { text: " | ".to_string(), style: Style::Plain },
        ]
    );
}

#[test]
fn the_statistics_are_read_from_their_lines() {
    let stats = reported().statistics();
    assert_eq!(stats.nodes_created, Some(2));
    assert_eq!(stats.nodes_deleted, None);
    assert_eq!(stats.relationships_created, None);
    assert_eq!(stats.relationships_deleted, Some(7));
    assert_eq!(stats.properties_set, Some(4));
    assert_eq!(
        stats.execution_time,
        Some(ExecutionTime { millis: "0.523".to_string(), number: "0.523417".to_string() })
    );
    let odd = QueryOutcome {
        header: Vec::new(),
        stats: strings(&["Nodes deleted: -3", "Relationships created: many"]),
        execution_time: None,
    };
    let stats = odd.statistics();
    assert_eq!(stats.nodes_deleted, Some(-3));
    assert_eq!(stats.relationships_created, None);
}

#[test]
fn a_quiet_table_has_no_statistics() {
    let stats = reported().statistics();
    let lines = render_table(&stats, &strings(&["a"]), true);
    assert_eq!(
        texts_of(&lines),
        vec![
            "| a               | ",
            "|-----------------+",
            "| Data available but iteration requires mutable access |",
        ]
    );
    assert!(render_table(&stats, &Vec::new(), true).is_empty());
}

#[test]
fn a_column_is_fifteen_characters_wide() {
    let stats = nothing_reported(&[]).statistics();
    let header = strings(&["exactly_fifteen", "a_name_longer_than_fifteen", "", "é"]);
    let lines = render_table(&stats, &header, true);
    assert_eq!(
        texts_of(&lines)[0],
        "| exactly_fifteen | a_name_longer_t |                 | é               | "
    );
    assert_eq!(
        texts_of(&lines)[1],
        "|-----------------+-----------------+-----------------+-----------------+"
    );
    assert_eq!(fit("abc", 5), "abc  ");
    assert_eq!(fit("abcdef", 5), "abcde");
    assert_eq!(fit("abcde", 5), "abcde");
    assert_eq!(fit("", 0), "");
    assert_eq!(fit("ab", 0), "");
}

#[test]
fn negative_counts_are_shown_with_their_sign() {
    let stats = Statistics {
        nodes_created: Some(-12),
        nodes_deleted: Some(i64::MIN),
        relationships_created: Some(i64::MAX),
        relationships_deleted: Some(0),
        properties_set: Some(1000),
        execution_time: None,
    };
    let lines = render_table(&stats, &Vec::new(), false);
    assert_eq!(
        texts_of(&lines),
        vec![
            "Statistics:",
            "  Nodes created: -12",
            "  Nodes deleted: -9223372036854775808",
            "  Relationships created: 9223372036854775807",
            "  Relationships deleted: 0",
            "  Properties set: 1000",
            "",
        ]
    );
}

#[test]
fn decimal_notation() {
    assert_eq!(u64_to_string(0), "0");
    assert_eq!(u64_to_string(7), "7");
    assert_eq!(u64_to_string(10), "10");
    assert_eq!(u64_to_string(6379), "6379");
    assert_eq!(u64_to_string(u64::MAX), "18446744073709551615");
    assert_eq!(i64_to_string(-1), "-1");
    assert_eq!(i64_to_string(0), "0");
    assert_eq!(i64_to_string(i64::MIN), "-9223372036854775808");
}

#[test]
fn text_helpers() {
    assert_eq!(trim("  a b \t"), "a b");
    assert_eq!(trim("\u{2003}x\u{a0}"), "x");
    assert_eq!(trim(""), "");
    assert_eq!(trim(" \n "), "");
    assert_eq!(join(&strings(&["a", "b", "c"]), ","), "a,b,c");
    assert_eq!(join(&strings(&["a"]), ","), "a");
    assert_eq!(join(&strings(&[]), ","), "");
    assert_eq!(join(&strings(&["", ""]), ", "), ", ");
    assert_eq!(repeat("ab", 3), "ababab");
    assert_eq!(repeat("ab", 0), "");
}

#[test]
fn csv_shows_the_columns_and_a_notice() {
    let cli = session("csv", false, false);
    assert_eq!(cli.output_mode, OutputMode::Csv);
    let lines = cli.display_query_result(&nothing_reported(&["a", "b"])).unwrap();
    assert_eq!(
        texts_of(&lines),
        vec![
            "a,b",
            "Data rows would be printed here if we had mutable access to the result set",
        ]
    );
    assert!(render_csv(&Vec::new()).is_empty());
    assert_eq!(texts_of(&render_csv(&strings(&["only"])))[0], "only");
    let lines = FalkorCli::display_as_csv(&reported());
    assert_eq!(texts_of(&lines)[0], "name,age");
}

#[test]
fn json_without_statistics() {
    let cli = session("json", false, false);
    assert_eq!(cli.output_mode, OutputMode::Json);
    let lines = cli.display_query_result(&nothing_reported(&["a", "b"])).unwrap();
    assert_eq!(lines.len(), 1);
    let text = lines[0].text();
    assert_eq!(
        text,
        "{\n  \"data\": \"Result data serialization would be implemented here\",\n  \"headers\": [\n    \"a\",\n    \"b\"\n  ],\n  \"statistics\": {\n    \"nodes_created\": 0,\n    \"nodes_deleted\": 0,\n    \"properties_set\": 0,\n    \"query_time\": 0.0,\n    \"relationships_created\": 0,\n    \"relationships_deleted\": 0\n  }\n}"
    );
    let value: serde_json::Value = serde_json::from_str(&text).unwrap();
    assert_eq!(value["statistics"]["query_time"].as_f64(), Some(0.0));
    assert!(value["statistics"]["query_time"].is_f64());
    assert!(value["data"].is_string());
    assert_eq!(value["headers"], serde_json::Value::from(vec!["a", "b"]));
}

#[test]
fn json_with_statistics() {
    let lines = FalkorCli::display_as_json(&reported()).unwrap();
    let value: serde_json::Value = serde_json::from_str(&lines[0].text()).unwrap();
    assert_eq!(value["statistics"]["nodes_created"].as_i64(), Some(2));
    assert_eq!(value["statistics"]["nodes_deleted"].as_i64(), Some(0));
    assert_eq!(value["statistics"]["relationships_deleted"].as_i64(), Some(7));
    assert_eq!(value["statistics"]["properties_set"].as_i64(), Some(4));
    assert_eq!(value["statistics"]["query_time"].as_f64(), Some(0.523417));
    assert_eq!(value["headers"][1].as_str(), Some("age"));
    assert_eq!(
        value["data"].as_str(),
        Some("Result data serialization would be implemented here")
    );
}

#[test]
fn json_documents() {
    let stats = nothing_reported(&[]).statistics();
    let document = json_document(&stats, &strings(&["h\"1"]));
    match &document {
        Json::Object(members) => {
            assert_eq!(members.len(), 3);
            assert_eq!(members[0].0, "statistics");
            assert_eq!(members[1], ("headers".to_string(), Json::List(vec![Json::Text("h\"1".to_string())])));
            assert_eq!(
                members[2],
                (
                    "data".to_string(),
                    Json::Text("Result data serialization would be implemented here".to_string())
                )
            );
            match &members[0].1 {
                Json::Object(inner) => {
                    assert_eq!(inner[0], ("nodes_created".to_string(), Json::Int(0)));
                    assert_eq!(inner[5], ("query_time".to_string(), Json::Number("0.0".to_string())));
                }
                other => panic!("expected an object, got {:?}", other),
            }
        }
        other => panic!("expected an object, got {:?}", other),
    }
    let text = document.pretty().unwrap();
    assert!(text.contains("\"h\\\"1\""));

    assert_eq!(Json::Null.pretty(), Ok("null".to_string()));
    assert_eq!(Json::Int(-4).pretty(), Ok("-4".to_string()));
    assert_eq!(Json::Number("1.50".to_string()).pretty(), Ok("1.5".to_string()));
    assert_eq!(Json::list(Vec::new()).pretty(), Ok("[]".to_string()));
    assert_eq!(
        Json::object(vec![
            ("b".to_string(), Json::Int(1)),
            ("a".to_string(), Json::Text("x".to_string()))
        ])
        .pretty(),
        Ok("{\n  \"a\": \"x\",\n  \"b\": 1\n}".to_string())
    );
    assert!(Json::Number("soon".to_string()).pretty().is_err());
}

#[test]
fn a_time_that_is_no_number() {
    let outcome = QueryOutcome {
        header: Vec::new(),
        stats: Vec::new(),
        execution_time: Some(ExecutionTime { millis: "NaN".to_string(), number: "null".to_string() }),
    };
    let lines = FalkorCli::display_as_json(&outcome).unwrap();
    let value: serde_json::Value = serde_json::from_str(&lines[0].text()).unwrap();
    assert!(value["statistics"]["query_time"].is_null());

    let broken = QueryOutcome {
        header: Vec::new(),
        stats: Vec::new(),
        execution_time: Some(ExecutionTime { millis: "1.000".to_string(), number: "one".to_string() }),
    };
    match FalkorCli::display_as_json(&broken) {
        Err(CommandError::RenderFailed { .. }) => {}
        other => panic!("expected a failure to render, got {:?}", other),
    }
    let document = json_document(&broken.statistics(), &broken.header);
    assert!(render_json(&document).is_err());
}

#[test]
fn raw_mode_comes_before_the_output_mode() {
    for format in ["table", "json", "csv"] {
        let cli = session(format, false, true);
        let lines = cli.display_query_result(&reported()).unwrap();
        assert_eq!(
            texts_of(&lines),
            vec![
                "Raw result: headers=[\"name\", \"age\"], stats=[\"Nodes created: 2\", \"Properties set: 4\", \"Relationships deleted: 7\", \"Query internal execution time: 0.523417 milliseconds\"]"
            ]
        );
    }
    assert_eq!(texts_of(&render_raw("[]", "[]")), vec!["Raw result: headers=[], stats=[]"]);
}

#[test]
fn an_unknown_format_is_the_table() {
    assert_eq!(OutputMode::from_name("table"), OutputMode::Table);
    assert_eq!(OutputMode::from_name("json"), OutputMode::Json);
    assert_eq!(OutputMode::from_name("csv"), OutputMode::Csv);
    assert_eq!(OutputMode::from_name("JSON"), OutputMode::Table);
    assert_eq!(OutputMode::from_name("yaml"), OutputMode::Table);
    assert_eq!(OutputMode::from_name(""), OutputMode::Table);
}

#[test]
fn a_finished_query() {
    let cli = session("csv", false, false);
    let lines = cli.query_finished(Ok(nothing_reported(&["a", "b"]))).unwrap();
    assert_eq!(texts_of(&lines)[0], "a,b");
    assert_eq!(
        cli.query_finished(Err("syntax error".to_string())),
        Err(CommandError::QueryFailed { message: "syntax error".to_string() })
    );
    let quiet = session("table", true, false);
    assert_eq!(quiet.query_finished(Ok(reported())), Ok(Vec::<Line>::new()));
    let quiet_raw = session("table", true, true);
    assert_eq!(quiet_raw.query_finished(Ok(reported())), Ok(Vec::<Line>::new()));
}

#[test]
fn the_schema_reports_each_query_on_its_own() {
    assert_eq!(labels_query(), "CALL db.labels()");
    assert_eq!(relationship_types_query(), "CALL db.relationshipTypes()");
    assert_eq!(
        texts_of(&FalkorCli::show_schema(true, true)),
        vec![
            "Graph Schema:",
            "  Node labels:",
            "    (Use query 'CALL db.labels()' to see node labels)",
            "  Relationship types:",
            "    (Use query 'CALL db.relationshipTypes()' to see relationship types)",
        ]
    );
    assert_eq!(
        texts_of(&FalkorCli::show_schema(false, true)),
        vec![
            "Graph Schema:",
            "    Unable to retrieve node labels",
            "  Relationship types:",
            "    (Use query 'CALL db.relationshipTypes()' to see relationship types)",
        ]
    );
    assert_eq!(
        texts_of(&FalkorCli::show_schema(true, false)),
        vec![
            "Graph Schema:",
            "  Node labels:",
            "    (Use query 'CALL db.labels()' to see node labels)",
            "    Unable to retrieve relationship types",
        ]
    );
    assert_eq!(
        texts_of(&FalkorCli::show_schema(false, false)),
        vec![
            "Graph Schema:",
            "    Unable to retrieve node labels",
            "    Unable to retrieve relationship types",
        ]
    );
}

#[test]
fn white_space_is_what_the_standard_library_takes_for_it() {
    let mut count = 0;
    for code in 0..=0x10FFFFu32 {
        if let Some(c) = char::from_u32(code) {
            assert_eq!(char_is_whitespace(c), c.is_whitespace(), "at U+{:04X}", code);
            if char_is_whitespace(c) {
                count += 1;
            }
        }
    }
    assert_eq!(count, 25);
}
