use falkordb_cli::cli::{Cli, Commands};
use falkordb_cli::client::{ConnectionConfig, FalkorCli};
use falkordb_cli::commands::{
    entity_type_from_upper, parse_entity_type, EntityType, IndexKind, PlanKind, Request,
};
use falkordb_cli::error::{CommandError, GraphHint, IndexOperation, SlowlogOperation};
use falkordb_cli::output::{texts_of, Style};

fn session() -> FalkorCli {
    let config = ConnectionConfig {
        hostname: "localhost".to_string(),
        port: 6379,
        database: 0,
        username: None,
        auth: None,
    };
    FalkorCli::new(&config, "table".to_string(), false, false).unwrap()
}

fn index(create: bool, entity_type: &str) -> Commands {
    if create {
        Commands::CreateIndex {
            graph: "mygraph".to_string(),
            entity_type: entity_type.to_string(),
            label: "Person".to_string(),
            property: "name".to_string(),
        }
    } else {
        Commands::DropIndex {
            graph: "mygraph".to_string(),
            entity_type: entity_type.to_string(),
            label: "Person".to_string(),
            property: "name".to_string(),
        }
    }
}

#[test]
fn edge_and_relationship_are_the_same_entity_type() {
    let cli = session();
    let edge = cli.handle_command(index(true, "EDGE")).unwrap();
    let relationship = cli.handle_command(index(true, "RELATIONSHIP")).unwrap();
    match (edge, relationship) {
        (
            Request::CreateIndex { entity: a, entity_text: typed_a, kind: kind_a, .. },
            Request::CreateIndex { entity: b, entity_text: typed_b, kind: kind_b, .. },
        ) => {
            assert_eq!(kind_a, IndexKind::Range);
            assert_eq!(kind_b, IndexKind::Range);
            assert_eq!(a, EntityType::Edge);
            assert_eq!(b, EntityType::Edge);
            assert_eq!(typed_a, "EDGE");
            assert_eq!(typed_b, "RELATIONSHIP");
        }
        other => panic!("expected two requests to create an index, got {:?}", other),
    }
}

#[test]
fn an_unknown_entity_type_fails_before_any_request() {
    let cli = session();
    assert_eq!(cli.handle_command(index(true, "FOO")), Err(CommandError::InvalidEntityType));
    assert_eq!(cli.handle_command(index(false, "FOO")), Err(CommandError::InvalidEntityType));
    assert_eq!(cli.handle_command(index(true, "")), Err(CommandError::InvalidEntityType));
    assert_eq!(cli.handle_command(index(true, "NODES")), Err(CommandError::InvalidEntityType));
}

#[test]
fn entity_types_are_read_in_any_case() {
    assert_eq!(parse_entity_type("node"), Ok(EntityType::Node));
    assert_eq!(parse_entity_type("Node"), Ok(EntityType::Node));
    assert_eq!(parse_entity_type("NODE"), Ok(EntityType::Node));
    assert_eq!(parse_entity_type("edge"), Ok(EntityType::Edge));
    assert_eq!(parse_entity_type("Relationship"), Ok(EntityType::Edge));
    assert_eq!(parse_entity_type("vertex"), Err(CommandError::InvalidEntityType));
    assert_eq!(entity_type_from_upper("NODE"), Some(EntityType::Node));
    assert_eq!(entity_type_from_upper("EDGE"), Some(EntityType::Edge));
    assert_eq!(entity_type_from_upper("RELATIONSHIP"), Some(EntityType::Edge));
    assert_eq!(entity_type_from_upper("node"), None);
}

#[test]
fn the_dispatch_table() {
    let cli = session();
    let g = || "g".to_string();
    let q = || "MATCH (n) RETURN n".to_string();
    assert_eq!(
        cli.handle_command(Commands::Query { graph: g(), query: q(), params: None }),
        Ok(Request::Execute { graph: g(), query: q(), read_only: false })
    );
    assert_eq!(
        cli.handle_command(Commands::RoQuery { graph: g(), query: q(), params: None }),
        Ok(Request::Execute { graph: g(), query: q(), read_only: true })
    );
    assert_eq!(
        cli.handle_command(Commands::Profile { graph: g(), query: q() }),
        Ok(Request::Plan { kind: PlanKind::Profile, graph: g(), query: q() })
    );
    assert_eq!(
        cli.handle_command(Commands::Explain { graph: g(), query: q() }),
        Ok(Request::Plan { kind: PlanKind::Explain, graph: g(), query: q() })
    );
    assert_eq!(
        cli.handle_command(Commands::Delete { graph: g() }),
        Ok(Request::Delete { graph: g() })
    );
    assert_eq!(
        cli.handle_command(Commands::Schema { graph: g() }),
        Ok(Request::Schema { graph: g() })
    );
    assert_eq!(
        cli.handle_command(Commands::Slowlog { graph: g() }),
        Ok(Request::Slowlog { graph: g() })
    );
    assert_eq!(
        cli.handle_command(Commands::SlowlogReset { graph: g() }),
        Ok(Request::SlowlogReset { graph: g() })
    );
    assert_eq!(
        cli.handle_command(Commands::Indices { graph: g() }),
        Ok(Request::Indices { graph: g() })
    );
    assert_eq!(
        cli.handle_command(index(false, "node")),
        Ok(Request::DropIndex {
            graph: "mygraph".to_string(),
            kind: IndexKind::Range,
            entity: EntityType::Node,
            entity_text: "node".to_string(),
            label: "Person".to_string(),
            property: "name".to_string(),
        })
    );
    assert_eq!(cli.handle_command(Commands::Interactive), Ok(Request::Interactive));
}

#[test]
fn what_is_not_implemented_says_so() {
    let cli = session();
    assert_eq!(
        cli.handle_command(Commands::List),
        Err(CommandError::UnimplementedFeature {
            message: "Graph listing not directly supported in current falkordb-rs version\nUse Redis CLI: KEYS *".to_string()
        })
    );
    assert_eq!(FalkorCli::list_graphs(), cli.handle_command(Commands::List));
    assert_eq!(
        cli.handle_command(Commands::Call {
            graph: "g".to_string(),
            procedure: "db.labels".to_string(),
            args: Some("[]".to_string()),
        }),
        Err(CommandError::UnimplementedFeature {
            message: "Procedure calls not fully implemented yet\nProcedure: db.labels\nGraph: g\nUse: graph.call_procedure(\"db.labels\").execute() in the Rust API".to_string()
        })
    );
    assert_eq!(
        cli.handle_command(Commands::Query {
            graph: "g".to_string(),
            query: "RETURN $x".to_string(),
            params: Some("{\"x\": 1}".to_string()),
        }),
        Err(CommandError::UnimplementedFeature {
            message: "Query parameters are not yet implemented".to_string()
        })
    );
    assert_eq!(
        cli.handle_command(Commands::RoQuery {
            graph: "g".to_string(),
            query: "RETURN $x".to_string(),
            params: Some("{}".to_string()),
        }),
        Err(CommandError::UnimplementedFeature {
            message: "Query parameters are not yet implemented".to_string()
        })
    );
}

#[test]
fn startup_with_a_graph_and_a_query_to_evaluate() {
    let cli = Cli::try_parse_from(["falkordb-cli", "-g", "test", "--eval", "CREATE (n:Test)"])
        .unwrap();
    let mut session = session();
    assert_eq!(session.current_graph, None);
    let request = session.start(cli);
    assert_eq!(
        request,
        Ok(Request::Execute {
            graph: "test".to_string(),
            query: "CREATE (n:Test)".to_string(),
            read_only: false,
        })
    );
    assert_eq!(session.current_graph, Some("test".to_string()));
}

#[test]
fn startup_in_its_other_forms() {
    let mut s = session();
    let cli = Cli::try_parse_from(["falkordb-cli", "--eval", "RETURN 1"]).unwrap();
    assert_eq!(s.start(cli), Err(CommandError::NoGraphSelected { hint: GraphHint::Specify }));

    let cli = Cli::try_parse_from(["falkordb-cli", "-f", "script"]).unwrap();
    assert_eq!(
        s.start(cli),
        Err(CommandError::UnimplementedFeature {
            message: "File mode not yet implemented".to_string()
        })
    );

    let cli = Cli::try_parse_from(["falkordb-cli"]).unwrap();
    assert_eq!(s.start(cli), Ok(Request::Interactive));

    let cli = Cli::try_parse_from(["falkordb-cli", "-g", "social", "delete", "old"]).unwrap();
    assert_eq!(s.start(cli), Ok(Request::Delete { graph: "old".to_string() }));
    assert_eq!(s.current_graph, Some("social".to_string()));

    // The query to evaluate comes before a file and before a subcommand.
    let cli = Cli::try_parse_from(["falkordb-cli", "--eval", "RETURN 1", "-f", "x", "list"])
        .unwrap();
    assert_eq!(
        s.start(cli),
        Ok(Request::Execute {
            graph: "social".to_string(),
            query: "RETURN 1".to_string(),
            read_only: false,
        })
    );
}

#[test]
fn graph_resolution() {
    let mut cli = session();
    assert_eq!(cli.get_graph_name(None), Err(CommandError::NoGraphSelected { hint: GraphHint::Specify }));
    assert_eq!(cli.get_graph_name(Some("given")), Ok("given".to_string()));
    cli.set_graph("current".to_string());
    assert_eq!(cli.get_graph_name(None), Ok("current".to_string()));
    assert_eq!(cli.get_graph_name(Some("given")), Ok("given".to_string()));
    cli.set_graph("next".to_string());
    assert_eq!(cli.get_graph_name(None), Ok("next".to_string()));
}

#[test]
fn execute_query_makes_the_request() {
    let cli = session();
    assert_eq!(
        cli.execute_query("g", "RETURN 1", true),
        Request::Execute { graph: "g".to_string(), query: "RETURN 1".to_string(), read_only: true }
    );
}

#[test]
fn plans_are_shown_under_a_heading() {
    let lines = FalkorCli::plan_finished(PlanKind::Profile, Ok("Results | Scan".to_string()))
        .unwrap();
    assert_eq!(texts_of(&lines), vec!["Execution Plan:", "Results | Scan"]);
    assert_eq!(lines[0].spans[0].style, Style::Heading);
    assert_eq!(lines[1].spans[0].style, Style::Plain);
    let lines = FalkorCli::plan_finished(PlanKind::Explain, Ok("plan".to_string())).unwrap();
    assert_eq!(texts_of(&lines), vec!["Query Explanation:", "plan"]);
    assert_eq!(
        FalkorCli::plan_finished(PlanKind::Profile, Err("boom".to_string())),
        Err(CommandError::ProfileFailed { message: "boom".to_string() })
    );
    assert_eq!(
        FalkorCli::plan_finished(PlanKind::Explain, Err("boom".to_string())),
        Err(CommandError::ExplainFailed { message: "boom".to_string() })
    );
}

#[test]
fn deleting_a_graph() {
    let lines = FalkorCli::delete_finished("old", Ok(())).unwrap();
    assert_eq!(texts_of(&lines), vec!["Graph 'old' deleted successfully"]);
    assert_eq!(
        FalkorCli::delete_finished("old", Err("no such key".to_string())),
        Err(CommandError::DeleteFailed { message: "no such key".to_string() })
    );
}

#[test]
fn slowlog_entries_are_numbered_from_one() {
    let entries: Vec<String> = (0..12).map(|i| format!("entry-{}", i)).collect();
    let lines = FalkorCli::slowlog_finished(Ok(entries)).unwrap();
    let texts = texts_of(&lines);
    assert_eq!(texts.len(), 13);
    assert_eq!(texts[0], "Slowlog Entries:");
    assert_eq!(texts[1], "1. entry-0");
    assert_eq!(texts[9], "9. entry-8");
    assert_eq!(texts[10], "10. entry-9");
    assert_eq!(texts[12], "12. entry-11");
    assert_eq!(lines[0].spans[0].style, Style::Heading);
    let lines = FalkorCli::slowlog_finished(Ok(Vec::new())).unwrap();
    assert_eq!(texts_of(&lines), vec!["Slowlog Entries:"]);
    assert_eq!(
        FalkorCli::slowlog_finished(Err("down".to_string())),
        Err(CommandError::SlowlogFailed {
            operation: SlowlogOperation::Read,
            message: "down".to_string()
        })
    );
    let lines = FalkorCli::slowlog_reset_finished(Ok(())).unwrap();
    assert_eq!(texts_of(&lines), vec!["Slowlog reset successfully"]);
    assert_eq!(
        FalkorCli::slowlog_reset_finished(Err("down".to_string())),
        Err(CommandError::SlowlogFailed {
            operation: SlowlogOperation::Reset,
            message: "down".to_string()
        })
    );
}

#[test]
fn indices_are_listed_without_numbers() {
    let lines =
        FalkorCli::indices_finished(Ok(vec!["Index { a }".to_string(), "Index { b }".to_string()]))
            .unwrap();
    assert_eq!(texts_of(&lines), vec!["Indices:", "  Index { a }", "  Index { b }"]);
    assert_eq!(
        FalkorCli::indices_finished(Err("down".to_string())),
        Err(CommandError::IndexOperationFailed {
            operation: IndexOperation::List,
            message: "down".to_string()
        })
    );
}

#[test]
fn index_changes_are_confirmed_with_the_type_as_typed() {
    let lines = FalkorCli::index_finished(true, "relationship", "KNOWS", "since", Ok(())).unwrap();
    assert_eq!(
        texts_of(&lines),
        vec!["Index created successfully on relationship:KNOWS for since"]
    );
    let lines = FalkorCli::index_finished(false, "NODE", "Person", "name", Ok(())).unwrap();
    assert_eq!(texts_of(&lines), vec!["Index dropped successfully on NODE:Person for name"]);
    assert_eq!(
        FalkorCli::index_finished(true, "NODE", "Person", "name", Err("exists".to_string())),
        Err(CommandError::IndexOperationFailed {
            operation: IndexOperation::Create,
            message: "exists".to_string()
        })
    );
    assert_eq!(
        FalkorCli::index_finished(false, "NODE", "Person", "name", Err("missing".to_string())),
        Err(CommandError::IndexOperationFailed {
            operation: IndexOperation::Drop,
            message: "missing".to_string()
        })
    );
}

#[test]
fn the_text_of_every_error() {
    let m = || "cause".to_string();
    let cases = vec![
        (CommandError::ConnectionSetupFailed { message: m() }, "cause"),
        (
            CommandError::NoGraphSelected { hint: GraphHint::Specify },
            "No graph specified. Use -g option or 'USE graph_name' command",
        ),
        (
            CommandError::NoGraphSelected { hint: GraphHint::Select },
            "No graph selected. Use 'USE <graph_name>' first or specify graph name",
        ),
        (CommandError::InvalidEntityType, "Invalid entity type. Use NODE or EDGE"),
        (CommandError::QueryFailed { message: m() }, "Query failed: cause"),
        (CommandError::ProfileFailed { message: m() }, "Profile failed: cause"),
        (CommandError::ExplainFailed { message: m() }, "Explain failed: cause"),
        (CommandError::DeleteFailed { message: m() }, "Delete failed: cause"),
        (
            CommandError::IndexOperationFailed { operation: IndexOperation::List, message: m() },
            "Indices query failed: cause",
        ),
        (
            CommandError::IndexOperationFailed { operation: IndexOperation::Create, message: m() },
            "Index creation failed: cause",
        ),
        (
            CommandError::IndexOperationFailed { operation: IndexOperation::Drop, message: m() },
            "Index drop failed: cause",
        ),
        (
            CommandError::SlowlogFailed { operation: SlowlogOperation::Read, message: m() },
            "Slowlog failed: cause",
        ),
        (
            CommandError::SlowlogFailed { operation: SlowlogOperation::Reset, message: m() },
            "Slowlog reset failed: cause",
        ),
        (CommandError::UnimplementedFeature { message: m() }, "cause"),
        (CommandError::RenderFailed { message: m() }, "Rendering failed: cause"),
    ];
    for (error, text) in cases {
        assert_eq!(error.message(), text);
    }
}

#[test]
fn the_two_requests_of_a_schema() {
    let (first, second) = FalkorCli::schema_requests("social");
    assert_eq!(
        first,
        Request::Execute {
            graph: "social".to_string(),
            query: "CALL db.labels()".to_string(),
            read_only: false,
        }
    );
    assert_eq!(
        second,
        Request::Execute {
            graph: "social".to_string(),
            query: "CALL db.relationshipTypes()".to_string(),
            read_only: false,
        }
    );
}
