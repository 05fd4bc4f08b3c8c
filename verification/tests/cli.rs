use falkordb_cli::cli::{Cli, CliError, Commands, OptionKind, RawCli, RawCommand};

#[test]
fn test_cli_parsing() {
    // Test basic CLI argument parsing
    let cli = Cli::try_parse_from([
        "falkordb-cli",
        "--hostname",
        "localhost",
        "-p",
        "6379",
        "-g",
        "test_graph",
        "query",
        "test_graph",
        "MATCH (n) RETURN n",
    ])
    .unwrap();

    assert_eq!(cli.hostname, "localhost");
    assert_eq!(cli.port, 6379);
    assert_eq!(cli.graph, Some("test_graph".to_string()));

    match cli.command {
        Some(Commands::Query {
            graph,
            query,
            params: _,
        }) => {
            assert_eq!(graph, "test_graph");
            assert_eq!(query, "MATCH (n) RETURN n");
        }
        _ => panic!("Expected Query command"),
    }
}

#[test]
fn test_interactive_mode_parsing() {
    let cli = Cli::try_parse_from(["falkordb-cli", "interactive"]).unwrap();

    match cli.command {
        Some(Commands::Interactive) => {}
        _ => panic!("Expected Interactive command"),
    }
}

#[test]
fn test_index_commands() {
    let cli = Cli::try_parse_from([
        "falkordb-cli",
        "create-index",
        "mygraph",
        "NODE",
        "Person",
        "name",
    ])
    .unwrap();

    match cli.command {
        Some(Commands::CreateIndex {
            graph,
            entity_type,
            label,
            property,
        }) => {
            assert_eq!(graph, "mygraph");
            assert_eq!(entity_type, "NODE");
            assert_eq!(label, "Person");
            assert_eq!(property, "name");
        }
        _ => panic!("Expected CreateIndex command"),
    }
}

#[test]
fn test_default_values() {
    let cli = Cli::try_parse_from(["falkordb-cli"]).unwrap();

    assert_eq!(cli.hostname, "localhost");
    assert_eq!(cli.port, 6379);
    assert_eq!(cli.database, 0);
    assert_eq!(cli.format, "table");
    assert!(!cli.quiet);
    assert!(!cli.raw);
    assert!(cli.auth.is_none());
    assert!(cli.graph.is_none());
    assert!(cli.eval.is_none());
    assert!(cli.file.is_none());
}

#[test]
fn test_output_formats() {
    for format in &["table", "json", "csv"] {
        let cli = Cli::try_parse_from([
            "falkordb-cli",
            "--format",
            *format,
            "query",
            "test",
            "MATCH (n) RETURN n",
        ])
        .unwrap();

        assert_eq!(cli.format, *format);
    }
}

#[test]
fn test_eval_mode() {
    let cli =
        Cli::try_parse_from(["falkordb-cli", "-g", "test", "--eval", "CREATE (n:Test)"]).unwrap();

    assert_eq!(cli.eval, Some("CREATE (n:Test)".to_string()));
    assert_eq!(cli.graph, Some("test".to_string()));
}

#[test]
fn test_authentication_parsing() {
    // Test username only
    let cli = Cli::try_parse_from(["falkordb-cli", "-u", "testuser", "interactive"]).unwrap();
    assert_eq!(cli.username, Some("testuser".to_string()));
    assert_eq!(cli.auth, None);

    // Test password only
    let cli = Cli::try_parse_from(["falkordb-cli", "-a", "testpass", "interactive"]).unwrap();
    assert_eq!(cli.username, None);
    assert_eq!(cli.auth, Some("testpass".to_string()));

    // Test username and password
    let cli = Cli::try_parse_from([
        "falkordb-cli",
        "-u",
        "testuser",
        "-a",
        "testpass",
        "interactive",
    ])
    .unwrap();
    assert_eq!(cli.username, Some("testuser".to_string()));
    assert_eq!(cli.auth, Some("testpass".to_string()));
}

fn raw_command(name: &str) -> RawCommand {
    RawCommand {
        name: name.to_string(),
        graph: None,
        query: None,
        params: None,
        entity_type: None,
        label: None,
        property: None,
        procedure: None,
        args: None,
    }
}

#[test]
fn every_subcommand_is_read() {
    let lines: Vec<(Vec<&str>, Commands)> = vec![
        (
            vec!["ro-query", "g", "MATCH (n) RETURN n", "-p", "{}"],
            Commands::RoQuery {
                graph: "g".to_string(),
                query: "MATCH (n) RETURN n".to_string(),
                params: Some("{}".to_string()),
            },
        ),
        (
            vec!["profile", "g", "q"],
            Commands::Profile { graph: "g".to_string(), query: "q".to_string() },
        ),
        (
            vec!["explain", "g", "q"],
            Commands::Explain { graph: "g".to_string(), query: "q".to_string() },
        ),
        (vec!["delete", "g"], Commands::Delete { graph: "g".to_string() }),
        (vec!["list"], Commands::List),
        (vec!["schema", "g"], Commands::Schema { graph: "g".to_string() }),
        (vec!["slowlog", "g"], Commands::Slowlog { graph: "g".to_string() }),
        (vec!["slowlog-reset", "g"], Commands::SlowlogReset { graph: "g".to_string() }),
        (vec!["indices", "g"], Commands::Indices { graph: "g".to_string() }),
        (
            vec!["drop-index", "g", "edge", "KNOWS", "since"],
            Commands::DropIndex {
                graph: "g".to_string(),
                entity_type: "edge".to_string(),
                label: "KNOWS".to_string(),
                property: "since".to_string(),
            },
        ),
        (
            vec!["call", "g", "db.labels", "--args", "[]"],
            Commands::Call {
                graph: "g".to_string(),
                procedure: "db.labels".to_string(),
                args: Some("[]".to_string()),
            },
        ),
    ];
    for (words, expected) in lines {
        let mut args = vec!["falkordb-cli".to_string()];
        args.extend(words.iter().map(|w| w.to_string()));
        let cli = Cli::parse_args(&args).unwrap();
        assert_eq!(cli.command, Some(expected));
    }
}

#[test]
fn flags_and_numbers_are_read() {
    let cli = Cli::try_parse_from([
        "falkordb-cli",
        "-q",
        "-r",
        "-n",
        "3",
        "--port",
        "7000",
        "-f",
        "script.cypher",
    ])
    .unwrap();
    assert!(cli.quiet);
    assert!(cli.raw);
    assert_eq!(cli.database, 3);
    assert_eq!(cli.port, 7000);
    assert_eq!(cli.file, Some("script.cypher".to_string()));
}

#[test]
fn a_port_out_of_range_is_refused() {
    match Cli::try_parse_from(["falkordb-cli", "--port", "70000"]) {
        Err(CliError::Usage { failure, .. }) => assert!(failure),
        other => panic!("expected a usage error, got {:?}", other),
    }
}

#[test]
fn a_missing_positional_is_refused() {
    match Cli::try_parse_from(["falkordb-cli", "query", "g"]) {
        Err(CliError::Usage { failure, .. }) => assert!(failure),
        other => panic!("expected a usage error, got {:?}", other),
    }
}

#[test]
fn help_is_no_failure() {
    match Cli::try_parse_from(["falkordb-cli", "--help"]) {
        Err(CliError::Usage { message, failure }) => {
            assert!(!failure);
            assert!(message.contains("--hostname"));
            assert!(message.contains("create-index"));
        }
        other => panic!("expected the help, got {:?}", other),
    }
}

#[test]
fn plain_values_without_a_default_give_no_cli() {
    let raw = RawCli {
        hostname: None,
        port: Some(1),
        database: Some(0),
        username: None,
        auth: None,
        graph: None,
        eval: None,
        file: None,
        format: Some("table".to_string()),
        quiet: false,
        raw: false,
        command: None,
    };
    assert_eq!(Cli::from_raw(raw), Err(CliError::MissingArgument { name: "hostname" }));
}

#[test]
fn plain_values_of_a_subcommand() {
    let mut raw = raw_command("delete");
    assert_eq!(
        Commands::from_raw(raw.clone()),
        Err(CliError::MissingArgument { name: "graph" })
    );
    raw.graph = Some("g".to_string());
    assert_eq!(Commands::from_raw(raw), Ok(Commands::Delete { graph: "g".to_string() }));
    assert_eq!(
        Commands::from_raw(raw_command("frobnicate")),
        Err(CliError::UnknownSubcommand { name: "frobnicate".to_string() })
    );
    let mut index = raw_command("create-index");
    index.graph = Some("g".to_string());
    index.entity_type = Some("NODE".to_string());
    index.label = Some("Person".to_string());
    assert_eq!(
        Commands::from_raw(index),
        Err(CliError::MissingArgument { name: "property" })
    );
}

#[test]
fn the_global_options() {
    let options = Cli::options();
    let shape: Vec<(&str, Option<char>, Option<&str>, OptionKind)> =
        options.iter().map(|o| (o.name, o.short, o.default, o.kind)).collect();
    assert_eq!(
        shape,
        vec![
            ("hostname", None, Some("localhost"), OptionKind::Text),
            ("port", Some('p'), Some("6379"), OptionKind::Port),
            ("database", Some('n'), Some("0"), OptionKind::Database),
            ("username", Some('u'), None, OptionKind::Text),
            ("auth", Some('a'), None, OptionKind::Text),
            ("graph", Some('g'), None, OptionKind::Text),
            ("eval", None, None, OptionKind::Text),
            ("file", Some('f'), None, OptionKind::Text),
            ("format", None, Some("table"), OptionKind::Text),
            ("quiet", Some('q'), None, OptionKind::Flag),
            ("raw", Some('r'), None, OptionKind::Flag),
        ]
    );
    assert_eq!(
        Commands::names(),
        vec![
            "query",
            "ro-query",
            "profile",
            "explain",
            "delete",
            "list",
            "schema",
            "slowlog",
            "slowlog-reset",
            "indices",
            "create-index",
            "drop-index",
            "call",
            "interactive",
        ]
    );
}

#[test]
fn long_and_short_names_read_the_same() {
    let long = Cli::try_parse_from([
        "falkordb-cli",
        "--port",
        "1",
        "--database",
        "2",
        "--username",
        "u",
        "--auth",
        "a",
        "--graph",
        "g",
        "--file",
        "f",
        "--quiet",
        "--raw",
    ])
    .unwrap();
    let short = Cli::try_parse_from([
        "falkordb-cli", "-p", "1", "-n", "2", "-u", "u", "-a", "a", "-g", "g", "-f", "f", "-q",
        "-r",
    ])
    .unwrap();
    assert_eq!(long, short);
    assert!(Cli::try_parse_from(["falkordb-cli", "-h"]).is_err());
    assert!(Cli::try_parse_from(["falkordb-cli", "--nothing"]).is_err());
    assert!(Cli::try_parse_from(["falkordb-cli", "bogus"]).is_err());
    assert!(Cli::try_parse_from(["falkordb-cli", "--database", "256"]).is_err());
}

#[test]
fn the_definition_holds_the_options_and_the_subcommands() {
    let command = Cli::command();
    assert_eq!(command.get_name(), "falkordb-cli");

    let arguments: Vec<(String, Option<String>, Option<char>, Vec<String>, bool)> = command
        .get_arguments()
        .map(|a| {
            (
                a.get_id().to_string(),
                a.get_long().map(|l| l.to_string()),
                a.get_short(),
                a.get_default_values().iter().map(|v| v.to_string_lossy().into_owned()).collect(),
                a.is_required_set(),
            )
        })
        .collect();
    let expected: Vec<(String, Option<String>, Option<char>, Vec<String>, bool)> = Cli::options()
        .iter()
        .map(|o| {
            (
                o.name.to_string(),
                Some(o.name.to_string()),
                o.short,
                o.default.iter().map(|d| d.to_string()).collect(),
                false,
            )
        })
        .collect();
    assert_eq!(arguments, expected);

    let flags: Vec<String> = command
        .get_arguments()
        .filter(|a| !a.get_action().takes_values())
        .map(|a| a.get_id().to_string())
        .collect();
    assert_eq!(flags, vec!["quiet".to_string(), "raw".to_string()]);

    let subcommands: Vec<(String, Vec<(String, bool, Option<char>)>)> = command
        .get_subcommands()
        .map(|s| {
            (
                s.get_name().to_string(),
                s.get_arguments()
                    .map(|a| (a.get_id().to_string(), a.is_required_set(), a.get_short()))
                    .collect(),
            )
        })
        .collect();
    let positional = |id: &str| (id.to_string(), true, None);
    let expected = vec![
        (
            "query".to_string(),
            vec![positional("graph"), positional("query"), ("params".to_string(), false, Some('p'))],
        ),
        (
            "ro-query".to_string(),
            vec![positional("graph"), positional("query"), ("params".to_string(), false, Some('p'))],
        ),
        ("profile".to_string(), vec![positional("graph"), positional("query")]),
        ("explain".to_string(), vec![positional("graph"), positional("query")]),
        ("delete".to_string(), vec![positional("graph")]),
        ("list".to_string(), vec![]),
        ("schema".to_string(), vec![positional("graph")]),
        ("slowlog".to_string(), vec![positional("graph")]),
        ("slowlog-reset".to_string(), vec![positional("graph")]),
        ("indices".to_string(), vec![positional("graph")]),
        (
            "create-index".to_string(),
            vec![
                positional("graph"),
                positional("entity_type"),
                positional("label"),
                positional("property"),
            ],
        ),
        (
            "drop-index".to_string(),
            vec![
                positional("graph"),
                positional("entity_type"),
                positional("label"),
                positional("property"),
            ],
        ),
        (
            "call".to_string(),
            vec![positional("graph"), positional("procedure"), ("args".to_string(), false, Some('a'))],
        ),
        ("interactive".to_string(), vec![]),
    ];
    assert_eq!(subcommands, expected);
}

#[test]
fn what_clap_made_of_a_line_decides() {
    assert_eq!(
        Cli::from_matches(Err(("usage: falkordb-cli".to_string(), true))),
        Err(CliError::Usage { message: "usage: falkordb-cli".to_string(), failure: true })
    );
    assert_eq!(
        Cli::from_matches(Err(("help".to_string(), false))),
        Err(CliError::Usage { message: "help".to_string(), failure: false })
    );
    let matches = Cli::command()
        .try_get_matches_from(["falkordb-cli", "-g", "social", "-q", "--port", "7", "delete", "old"])
        .unwrap();
    let cli = Cli::from_matches(Ok(matches)).unwrap();
    assert_eq!(cli.hostname, "localhost");
    assert_eq!(cli.port, 7);
    assert_eq!(cli.database, 0);
    assert_eq!(cli.graph, Some("social".to_string()));
    assert!(cli.quiet);
    assert!(!cli.raw);
    assert_eq!(cli.format, "table");
    assert_eq!(cli.command, Some(Commands::Delete { graph: "old".to_string() }));
}
