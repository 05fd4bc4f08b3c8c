use falkordb_cli::cli::Commands;
use falkordb_cli::client::{ConnectionConfig, FalkorCli};
use falkordb_cli::error::{CommandError, GraphHint};
use falkordb_cli::interactive::{
    classify, classify_trimmed, is_exit_line, keyword_from_upper, strip_quotes, LineOutcome,
    MetaKind, ParsedLine, ReplEvent,
};
use falkordb_cli::output::texts_of;

fn session() -> FalkorCli {
    let config = ConnectionConfig {
        hostname: "localhost".to_string(),
        port: 6379,
        database: 0,
        username: None,
        auth: None,
    };
    FalkorCli::new(&config, "table".to_string(), false, false).unwrap()
}

fn meta(kind: MetaKind, args: &[&str]) -> Option<ParsedLine> {
    Some(ParsedLine::Meta { kind, args: args.iter().map(|a| a.to_string()).collect() })
}

#[test]
fn keywords_are_recognised_in_any_case() {
    for line in ["use g", "Use g", "USE g", "uSe g"] {
        assert_eq!(classify(line), meta(MetaKind::Use, &["g"]));
    }
    assert_eq!(classify("help"), meta(MetaKind::Help, &[]));
    assert_eq!(classify("List"), meta(MetaKind::List, &[]));
    assert_eq!(classify("schema"), meta(MetaKind::Schema, &[]));
    assert_eq!(classify("Exit"), meta(MetaKind::Exit, &[]));
    assert_eq!(classify("quit"), meta(MetaKind::Exit, &[]));
    assert_eq!(classify("query MATCH (n) RETURN n"), meta(MetaKind::Query, &["MATCH (n) RETURN n"]));
    assert_eq!(classify("ro-query MATCH (n) RETURN n"), meta(MetaKind::RoQuery, &["MATCH (n) RETURN n"]));
}

#[test]
fn each_keyword_names_its_kind() {
    assert_eq!(keyword_from_upper("HELP"), Some(MetaKind::Help));
    assert_eq!(keyword_from_upper("USE"), Some(MetaKind::Use));
    assert_eq!(keyword_from_upper("LIST"), Some(MetaKind::List));
    assert_eq!(keyword_from_upper("SCHEMA"), Some(MetaKind::Schema));
    assert_eq!(keyword_from_upper("EXIT"), Some(MetaKind::Exit));
    assert_eq!(keyword_from_upper("QUIT"), Some(MetaKind::Exit));
    assert_eq!(keyword_from_upper("QUERY"), Some(MetaKind::Query));
    assert_eq!(keyword_from_upper("RO-QUERY"), Some(MetaKind::RoQuery));
    assert_eq!(keyword_from_upper("use"), None);
    assert_eq!(keyword_from_upper("MATCH"), None);
    assert_eq!(keyword_from_upper(""), None);
}

#[test]
fn upper_case_follows_unicode() {
    // The long s has S as its upper-case form, so this word is the keyword USE.
    assert_eq!(classify("u\u{17f}e g"), meta(MetaKind::Use, &["g"]));
}

#[test]
fn a_keyword_is_a_whole_word() {
    assert_eq!(
        classify("USEFUL thing"),
        Some(ParsedLine::LiteralQuery { text: "USEFUL thing".to_string() })
    );
    assert_eq!(
        classify("HELPER"),
        Some(ParsedLine::LiteralQuery { text: "HELPER".to_string() })
    );
    assert_eq!(
        classify("QUERYING"),
        Some(ParsedLine::LiteralQuery { text: "QUERYING".to_string() })
    );
}

#[test]
fn empty_lines_are_passed_over() {
    assert_eq!(classify(""), None);
    assert_eq!(classify("   "), None);
    assert_eq!(classify("\t \n"), None);
    let mut cli = session();
    assert_eq!(cli.handle_interactive_command("  "), Ok(LineOutcome::Nothing));
    assert_eq!(cli.current_graph, None);
}

#[test]
fn words_are_split_at_any_white_space() {
    assert_eq!(classify("  use\tmovies  "), meta(MetaKind::Use, &["movies"]));
    assert_eq!(classify("use\u{a0}movies"), meta(MetaKind::Use, &["movies"]));
    assert_eq!(classify("schema   social   extra"), meta(MetaKind::Schema, &["social"]));
    assert_eq!(classify("use"), meta(MetaKind::Use, &[]));
}

#[test]
fn quoted_and_unquoted_queries_are_the_same() {
    let expected = meta(MetaKind::Query, &["MATCH (n) RETURN n"]);
    assert_eq!(classify("QUERY \"MATCH (n) RETURN n\""), expected);
    assert_eq!(classify("QUERY MATCH (n) RETURN n"), expected);
    assert_eq!(classify("QUERY 'MATCH (n) RETURN n'"), expected);
    assert_eq!(classify("query   \"  MATCH (n) RETURN n \"  "), expected);
}

#[test]
fn quotes_are_stripped_once_and_only_in_pairs() {
    assert_eq!(strip_quotes("\"a\""), "a");
    assert_eq!(strip_quotes("'a'"), "a");
    assert_eq!(strip_quotes("\"\"a\"\""), "\"a\"");
    assert_eq!(strip_quotes("\"a'"), "\"a'");
    assert_eq!(strip_quotes("a"), "a");
    assert_eq!(strip_quotes("\""), "\"");
    assert_eq!(strip_quotes("''"), "");
    assert_eq!(strip_quotes(""), "");
    assert_eq!(classify("QUERY \""), meta(MetaKind::Query, &["\""]));
    assert_eq!(
        classify("QUERY \"RETURN 'x'\""),
        meta(MetaKind::Query, &["RETURN 'x'"])
    );
}

#[test]
fn a_query_without_text_is_a_matter_of_usage() {
    assert_eq!(classify("QUERY"), meta(MetaKind::Query, &[]));
    assert_eq!(classify("QUERY   "), meta(MetaKind::Query, &[]));
    assert_eq!(classify("QUERY \"\""), meta(MetaKind::Query, &[]));
    assert_eq!(classify("ro-query '  '"), meta(MetaKind::RoQuery, &[]));
    let mut cli = session();
    cli.set_graph("g".to_string());
    match cli.handle_interactive_command("QUERY") {
        Ok(LineOutcome::Show(lines)) => {
            assert_eq!(texts_of(&lines), vec!["Usage: QUERY <cypher_query>".to_string()])
        }
        other => panic!("expected usage, got {:?}", other),
    }
    match cli.handle_interactive_command("ro-query") {
        Ok(LineOutcome::Show(lines)) => {
            assert_eq!(texts_of(&lines), vec!["Usage: RO-QUERY <cypher_query>".to_string()])
        }
        other => panic!("expected usage, got {:?}", other),
    }
}

#[test]
fn classification_with_a_given_upper_case_form() {
    assert_eq!(
        classify_trimmed("anything at all", "USE"),
        ParsedLine::Meta { kind: MetaKind::Use, args: vec!["at".to_string()] }
    );
    assert_eq!(
        classify_trimmed("use g", "use"),
        ParsedLine::LiteralQuery { text: "use g".to_string() }
    );
}

#[test]
fn use_without_a_name_changes_nothing() {
    let mut cli = session();
    cli.set_graph("before".to_string());
    for line in ["USE", "use", "  Use  "] {
        match cli.handle_interactive_command(line) {
            Ok(LineOutcome::Show(lines)) => {
                assert_eq!(texts_of(&lines), vec!["Usage: USE <graph_name>".to_string()])
            }
            other => panic!("expected usage, got {:?}", other),
        }
        assert_eq!(cli.current_graph, Some("before".to_string()));
    }
}

#[test]
fn use_with_a_name_selects_the_graph() {
    let mut cli = session();
    match cli.handle_interactive_command("use movies") {
        Ok(LineOutcome::Show(lines)) => {
            assert_eq!(texts_of(&lines), vec!["Switched to graph: movies".to_string()])
        }
        other => panic!("expected a confirmation, got {:?}", other),
    }
    assert_eq!(cli.current_graph, Some("movies".to_string()));
    cli.handle_interactive_command("USE other ignored").unwrap();
    assert_eq!(cli.current_graph, Some("other".to_string()));
}

#[test]
fn without_a_graph_a_literal_line_fails() {
    let mut cli = session();
    assert_eq!(
        cli.handle_interactive_command("MATCH (n) RETURN n"),
        Err(CommandError::NoGraphSelected { hint: GraphHint::Select })
    );
    assert_eq!(
        cli.handle_interactive_command("USEFUL"),
        Err(CommandError::NoGraphSelected { hint: GraphHint::Select })
    );
    assert_eq!(
        cli.handle_interactive_command("query MATCH (n) RETURN n"),
        Err(CommandError::NoGraphSelected { hint: GraphHint::Select })
    );
    assert_eq!(
        cli.handle_interactive_command("schema"),
        Err(CommandError::NoGraphSelected { hint: GraphHint::Specify })
    );
    assert_eq!(cli.current_graph, None);
}

#[test]
fn with_a_graph_lines_become_commands() {
    let mut cli = session();
    cli.set_graph("g".to_string());
    assert_eq!(
        cli.handle_interactive_command("  MATCH (n) RETURN n  "),
        Ok(LineOutcome::Run(Commands::Query {
            graph: "g".to_string(),
            query: "MATCH (n) RETURN n".to_string(),
            params: None,
        }))
    );
    assert_eq!(
        cli.handle_interactive_command("ro-query \"MATCH (n) RETURN n\""),
        Ok(LineOutcome::Run(Commands::RoQuery {
            graph: "g".to_string(),
            query: "MATCH (n) RETURN n".to_string(),
            params: None,
        }))
    );
    assert_eq!(cli.handle_interactive_command("list"), Ok(LineOutcome::Run(Commands::List)));
    assert_eq!(
        cli.handle_interactive_command("schema"),
        Ok(LineOutcome::Run(Commands::Schema { graph: "g".to_string() }))
    );
    assert_eq!(
        cli.handle_interactive_command("schema other"),
        Ok(LineOutcome::Run(Commands::Schema { graph: "other".to_string() }))
    );
    // An override of the graph for one command does not change the session.
    assert_eq!(cli.current_graph, Some("g".to_string()));
    assert_eq!(cli.handle_interactive_command("exit"), Ok(LineOutcome::Nothing));
    assert_eq!(cli.handle_interactive_command("QUIT"), Ok(LineOutcome::Nothing));
}

#[test]
fn the_help_names_every_keyword() {
    let mut cli = session();
    let lines = match cli.handle_interactive_command("help") {
        Ok(LineOutcome::Show(lines)) => lines,
        other => panic!("expected the help, got {:?}", other),
    };
    let text = texts_of(&lines).join("\n");
    for keyword in ["HELP", "USE", "LIST", "SCHEMA", "EXIT", "QUIT", "QUERY", "RO-QUERY"] {
        assert!(text.contains(keyword), "{} is missing", keyword);
        assert_eq!(keyword_from_upper(keyword).is_some(), true);
    }
    assert_eq!(texts_of(&lines)[0], "FalkorDB CLI Commands:");
    assert_eq!(
        texts_of(&lines)[4],
        "  USE <graph_name>       - Switch to specified graph"
    );
    assert_eq!(texts_of(&lines)[10], "");
    assert_eq!(texts_of(&lines).len(), 15);
}

#[test]
fn exit_ends_the_session() {
    assert!(is_exit_line("exit"));
    assert!(is_exit_line("quit"));
    assert!(is_exit_line("  exit \n"));
    assert!(!is_exit_line("EXIT"));
    assert!(!is_exit_line("Quit"));
    assert!(!is_exit_line("exit now"));
    assert!(!is_exit_line(""));

    let mut cli = session();
    let step = cli.interactive_mode(ReplEvent::Line("exit".to_string()));
    assert!(step.terminate);
    assert_eq!(step.history, Some("exit".to_string()));
    assert_eq!(step.outcome, Ok(LineOutcome::Nothing));
    assert_eq!(step.log, None);

    // The keyword in upper case is a meta-command, but does not end the session.
    let step = cli.interactive_mode(ReplEvent::Line("EXIT".to_string()));
    assert!(!step.terminate);
    assert_eq!(step.outcome, Ok(LineOutcome::Nothing));
}

#[test]
fn an_error_does_not_end_the_session() {
    let mut cli = session();
    let step = cli.interactive_mode(ReplEvent::Line("MATCH (n) RETURN n".to_string()));
    assert_eq!(step.outcome, Err(CommandError::NoGraphSelected { hint: GraphHint::Select }));
    assert!(!step.terminate);
    assert_eq!(step.history, Some("MATCH (n) RETURN n".to_string()));
}

#[test]
fn the_reader_can_end_the_session() {
    let mut cli = session();
    let step = cli.interactive_mode(ReplEvent::Interrupted);
    assert!(step.terminate);
    assert_eq!(step.history, None);
    match step.outcome {
        Ok(LineOutcome::Show(lines)) => assert_eq!(texts_of(&lines), vec!["CTRL-C".to_string()]),
        other => panic!("expected a notice, got {:?}", other),
    }
    let step = cli.interactive_mode(ReplEvent::Eof);
    assert!(step.terminate);
    match step.outcome {
        Ok(LineOutcome::Show(lines)) => assert_eq!(texts_of(&lines), vec!["CTRL-D".to_string()]),
        other => panic!("expected a notice, got {:?}", other),
    }
    let step = cli.interactive_mode(ReplEvent::Failed("Io(broken pipe)".to_string()));
    assert!(step.terminate);
    assert_eq!(step.outcome, Ok(LineOutcome::Nothing));
    assert_eq!(step.log, Some("Error: Io(broken pipe)".to_string()));
}

#[test]
fn upper_case_of_ascii_text_changes_small_letters_only() {
    for code in 0..128u8 {
        let c = code as char;
        let expected = if c.is_ascii_lowercase() { (code - 32) as char } else { c };
        assert_eq!(c.to_string().to_uppercase(), expected.to_string());
    }
    assert_eq!("ro-query 1~".to_uppercase(), "RO-QUERY 1~");
    // Through the classifier: every mix of cases of a keyword names it.
    for word in ["ro-query", "RO-QUERY", "Ro-Query", "rO-qUERY"] {
        assert_eq!(
            classify(word),
            Some(ParsedLine::Meta { kind: MetaKind::RoQuery, args: Vec::new() })
        );
    }
    assert_eq!(
        classify("r\u{f6}-query"),
        Some(ParsedLine::LiteralQuery { text: "r\u{f6}-query".to_string() })
    );
}
