//! The interactive session: how an input line is classified, what it does to the session,
//! and when the read loop ends.

use vstd::prelude::*;
use crate::cli::{Commands, CommandsView, option_view};
use crate::client::{FalkorCli, resolved};
use crate::error::{CommandError, CommandErrorView, GraphHint, error_text, view_result};
use crate::output::{Line, Span, SpanView, Style, plain, plain_line, push_line, styled, styled_line};
use crate::text::{
    ascii_upper, chars_of, is_ascii_text, is_whitespace, lemma_one_word, lemma_skip_spaces,
    lemma_skip_word, lemma_trim_end, lemma_trimmed_edges, lemma_trimmed_fixed, trim_end, skip_spaces, skip_word, spaces_end, str_eq, to_uppercase, trim, trimmed,
    uppercase, word_end,
};

verus! {

/// The meta-commands of the interactive session.
#[derive(Debug, Clone, Copy, PartialEq, Eq, Structural)]
pub enum MetaKind {
    Help,
    Use,
    List,
    Schema,
    Exit,
    Query,
    RoQuery,
}

/// A classified input line.
#[derive(Debug, Clone, PartialEq, Eq)]
pub enum ParsedLine {
    /// A meta-command with the arguments it reads: for `Use` and `Schema` the second word
    /// of the line, if there is one; for `Query` and `RoQuery` the query text, if it is not
    /// empty; for the others none.
    Meta { kind: MetaKind, args: Vec<String> },
    /// Any other line, trimmed: a query for the current graph.
    LiteralQuery { text: String },
}

/// The mathematical model of a `ParsedLine`.
pub enum ParsedLineView {
    Meta { kind: MetaKind, args: Seq<Seq<char>> },
    LiteralQuery { text: Seq<char> },
}

impl View for ParsedLine {
    type V = ParsedLineView;

    open spec fn view(&self) -> ParsedLineView {
        match *self {
            ParsedLine::Meta { kind, args } => ParsedLineView::Meta {
                kind,
                args: args.deep_view(),
            },
            ParsedLine::LiteralQuery { text } => ParsedLineView::LiteralQuery { text: text@ },
        }
    }
}

/// The meta-command that an upper-cased word names. The match is on the whole word: one
/// that only starts with a keyword names nothing.
pub open spec fn keyword_kind(upper: Seq<char>) -> Option<MetaKind> {
    if upper == "HELP"@ {
        Some(MetaKind::Help)
    } else if upper == "USE"@ {
        Some(MetaKind::Use)
    } else if upper == "LIST"@ {
        Some(MetaKind::List)
    } else if upper == "SCHEMA"@ {
        Some(MetaKind::Schema)
    } else if upper == "EXIT"@ || upper == "QUIT"@ {
        Some(MetaKind::Exit)
    } else if upper == "QUERY"@ {
        Some(MetaKind::Query)
    } else if upper == "RO-QUERY"@ {
        Some(MetaKind::RoQuery)
    } else {
        None
    }
}

/// The first word of a trimmed line: everything before its first white space.
pub open spec fn first_word(t: Seq<char>) -> Seq<char> {
    t.subrange(0, skip_word(t, 0))
}

/// The second word of a trimmed line, if it has one.
pub open spec fn second_word(t: Seq<char>) -> Option<Seq<char>> {
    let start = skip_spaces(t, skip_word(t, 0));
    if start < t.len() {
        Some(t.subrange(start, skip_word(t, start)))
    } else {
        None
    }
}

/// `raw` without its first and last character where these are one pair of double quotes or
/// one pair of single quotes; `raw` itself otherwise. Quotes inside are left alone.
pub open spec fn unquoted(raw: Seq<char>) -> Seq<char> {
    if raw.len() >= 2 && ((raw[0] == '"' && raw.last() == '"') || (raw[0] == '\''
        && raw.last() == '\'')) {
        raw.subrange(1, raw.len() - 1)
    } else {
        raw
    }
}

/// The query text of a trimmed line that starts with a keyword: what follows the first
/// word, trimmed, without one pair of quotes around it, and trimmed again.
pub open spec fn query_text(t: Seq<char>) -> Seq<char> {
    trimmed(unquoted(trimmed(t.skip(skip_word(t, 0)))))
}

/// The arguments that a meta-command reads from its trimmed line.
pub open spec fn meta_args(kind: MetaKind, t: Seq<char>) -> Seq<Seq<char>> {
    match kind {
        MetaKind::Use | MetaKind::Schema => match second_word(t) {
            Some(word) => seq![word],
            None => Seq::empty(),
        },
        MetaKind::Query | MetaKind::RoQuery => if query_text(t).len() == 0 {
            Seq::empty()
        } else {
            seq![query_text(t)]
        },
        MetaKind::Help | MetaKind::List | MetaKind::Exit => Seq::empty(),
    }
}

/// The classification of a trimmed, non-empty line whose first word has the upper-case
/// form `upper`.
pub open spec fn parsed(t: Seq<char>, upper: Seq<char>) -> ParsedLineView {
    match keyword_kind(upper) {
        Some(kind) => ParsedLineView::Meta { kind, args: meta_args(kind, t) },
        None => ParsedLineView::LiteralQuery { text: t },
    }
}

/// The classification of an input line: nothing for a line that is empty once trimmed;
/// otherwise the meta-command that the first word names, whatever its case, or a literal
/// query that is the whole trimmed line.
pub open spec fn classified(line: Seq<char>) -> Option<ParsedLineView> {
    let t = trimmed(line);
    if t.len() == 0 {
        None
    } else {
        Some(parsed(t, uppercase(first_word(t))))
    }
}

/// The meta-command that an upper-cased word names.
pub fn keyword_from_upper(upper: &str) -> (r: Option<MetaKind>)
    ensures
        r == keyword_kind(upper@),
{
    if str_eq(upper, "HELP") {
        Some(MetaKind::Help)
    } else if str_eq(upper, "USE") {
        Some(MetaKind::Use)
    } else if str_eq(upper, "LIST") {
        Some(MetaKind::List)
    } else if str_eq(upper, "SCHEMA") {
        Some(MetaKind::Schema)
    } else if str_eq(upper, "EXIT") || str_eq(upper, "QUIT") {
        Some(MetaKind::Exit)
    } else if str_eq(upper, "QUERY") {
        Some(MetaKind::Query)
    } else if str_eq(upper, "RO-QUERY") {
        Some(MetaKind::RoQuery)
    } else {
        None
    }
}

/// `raw` without the one pair of quotes around it, if there is one.
pub fn strip_quotes(raw: &str) -> (r: &str)
    ensures
        r@ == unquoted(raw@),
{
    let v = chars_of(raw);
    let n = v.len();
    if n >= 2 && ((v[0] == '"' && v[n - 1] == '"') || (v[0] == '\'' && v[n - 1] == '\'')) {
        raw.substring_char(1, n - 1)
    } else {
        raw
    }
}

/// The arguments that the meta-command `kind` reads from the trimmed line `t`.
fn read_args(kind: MetaKind, t: &str) -> (r: Vec<String>)
    ensures
        r.deep_view() == meta_args(kind, t@),
{
    let mut args: Vec<String> = Vec::new();
    let v = chars_of(t);
    let first_end = word_end(&v, 0);
    match kind {
        MetaKind::Use | MetaKind::Schema => {
            let start = spaces_end(&v, first_end);
            if start < v.len() {
                let end = word_end(&v, start);
                args.push(String::from_str(t.substring_char(start, end)));
                assert(args.deep_view() =~= seq![t@.subrange(start as int, end as int)]);
            } else {
                assert(args.deep_view() =~= Seq::<Seq<char>>::empty());
            }
        },
        MetaKind::Query | MetaKind::RoQuery => {
            let rest = t.substring_char(first_end, v.len());
            assert(rest@ =~= t@.skip(first_end as int));
            let text = trim(strip_quotes(trim(rest)));
            if text.unicode_len() == 0 {
                assert(args.deep_view() =~= Seq::<Seq<char>>::empty());
            } else {
                args.push(String::from_str(text));
                assert(args.deep_view() =~= seq![query_text(t@)]);
            }
        },
        MetaKind::Help | MetaKind::List | MetaKind::Exit => {
            assert(args.deep_view() =~= Seq::<Seq<char>>::empty());
        },
    }
    args
}

/// Classifies the trimmed, non-empty line `t`, given the upper-case form `upper` of its
/// first word.
pub fn classify_trimmed(t: &str, upper: &str) -> (r: ParsedLine)
    ensures
        r@ == parsed(t@, upper@),
{
    match keyword_from_upper(upper) {
        Some(kind) => ParsedLine::Meta { kind, args: read_args(kind, t) },
        None => ParsedLine::LiteralQuery { text: String::from_str(t) },
    }
}

/// Classifies an input line. `None` stands for a line that is empty once trimmed, which
/// the caller passes over.
pub fn classify(line: &str) -> (r: Option<ParsedLine>)
    ensures
        crate::cli::option_view(r) == classified(line@),
{
    let t = trim(line);
    let v = chars_of(t);
    if v.len() == 0 {
        return None;
    }
    let end = word_end(&v, 0);
    let upper = to_uppercase(t.substring_char(0, end));
    Some(classify_trimmed(t, upper.as_str()))
}

/// What an input line asks the caller to do.
#[derive(Debug, Clone, PartialEq, Eq)]
pub enum LineOutcome {
    /// Nothing: the line was empty, or asked to leave.
    Nothing,
    /// Show these lines.
    Show(Vec<Line>),
    /// Run this command through the dispatch table.
    Run(Commands),
}

/// The mathematical model of a `LineOutcome`.
pub enum LineOutcomeView {
    Nothing,
    Show(Seq<Seq<SpanView>>),
    Run(CommandsView),
}

impl View for LineOutcome {
    type V = LineOutcomeView;

    open spec fn view(&self) -> LineOutcomeView {
        match *self {
            LineOutcome::Nothing => LineOutcomeView::Nothing,
            LineOutcome::Show(lines) => LineOutcomeView::Show(lines.deep_view()),
            LineOutcome::Run(command) => LineOutcomeView::Run(command@),
        }
    }
}

/// One entry of the command reference: the command, emphasised, and what it does.
pub open spec fn help_entry(command: Seq<char>, meaning: Seq<char>) -> Seq<SpanView> {
    seq![plain("  "@), styled(command, Style::Command), plain(meaning)]
}

/// The command reference of the interactive session. It names every keyword that the
/// classifier knows.
pub open spec fn help_text() -> Seq<Seq<SpanView>> {
    seq![
        styled_line("FalkorDB CLI Commands:"@, Style::Banner),
        help_entry("MATCH (n) RETURN n"@, "            - Execute Cypher query on current graph"@),
        help_entry("QUERY <cypher_query>"@, "          - Execute Cypher query on current graph"@),
        help_entry("RO-QUERY <cypher_query>"@, "       - Execute read-only query on current graph"@),
        help_entry("USE <graph_name>"@, "       - Switch to specified graph"@),
        help_entry("LIST"@, "              - List all graphs"@),
        help_entry("SCHEMA"@, "            - Show current graph schema"@),
        help_entry("SCHEMA <graph>"@, "   - Show schema for specific graph"@),
        help_entry("HELP"@, "              - Show this help"@),
        help_entry("EXIT/QUIT"@, "        - Exit interactive mode"@),
        Seq::<SpanView>::empty(),
        styled_line("Query Examples:"@, Style::Examples),
        plain_line("  CREATE (n:Person {name: 'John'})"@),
        plain_line("  MATCH (n:Person) RETURN n.name"@),
        plain_line("  MATCH (a)-[r]->(b) RETURN a, r, b LIMIT 10"@),
    ]
}

/// What is shown when the current graph has changed.
pub open spec fn switched_line(graph: Seq<char>) -> Seq<SpanView> {
    seq![plain("Switched to graph: "@), styled(graph, Style::Graph)]
}

/// A query on the graph that the session resolves without a name: the current one, or
/// `NoGraphSelected` where there is none, with the advice to select a graph first.
pub open spec fn query_on_current(current: Option<Seq<char>>, query: Seq<char>, read_only: bool)
    -> Result<LineOutcomeView, CommandErrorView> {
    match resolved(None, current) {
        Ok(graph) => Ok(
            LineOutcomeView::Run(
                if read_only {
                    CommandsView::RoQuery { graph, query, params: None }
                } else {
                    CommandsView::Query { graph, query, params: None }
                },
            ),
        ),
        Err(_) => Err(CommandErrorView::NoGraphSelected { hint: GraphHint::Select }),
    }
}

/// The schema of the graph that the session resolves: the one that the line names, which
/// then counts for this command only, else the current one.
pub open spec fn schema_outcome(current: Option<Seq<char>>, args: Seq<Seq<char>>) -> Result<
    LineOutcomeView,
    CommandErrorView,
> {
    let named = if args.len() > 0 {
        Some(args[0])
    } else {
        None
    };
    match resolved(named, current) {
        Ok(graph) => Ok(LineOutcomeView::Run(CommandsView::Schema { graph })),
        Err(e) => Err(e),
    }
}

/// What a meta-command that takes a query asks for: a word on its usage where the query is
/// missing, else the query on the current graph.
pub open spec fn query_outcome(
    current: Option<Seq<char>>,
    args: Seq<Seq<char>>,
    read_only: bool,
) -> Result<LineOutcomeView, CommandErrorView> {
    if args.len() == 0 {
        Ok(
            LineOutcomeView::Show(
                seq![
                    plain_line(
                        if read_only {
                            "Usage: RO-QUERY <cypher_query>"@
                        } else {
                            "Usage: QUERY <cypher_query>"@
                        },
                    ),
                ],
            ),
        )
    } else {
        query_on_current(current, args[0], read_only)
    }
}

/// What a classified line asks for, given the current graph. Only `USE` with a graph name
/// changes the session; `acted_graph` says to what.
pub open spec fn acted(current: Option<Seq<char>>, line: Option<ParsedLineView>) -> Result<
    LineOutcomeView,
    CommandErrorView,
> {
    match line {
        None => Ok(LineOutcomeView::Nothing),
        Some(ParsedLineView::LiteralQuery { text }) => query_on_current(current, text, false),
        Some(ParsedLineView::Meta { kind, args }) => match kind {
            MetaKind::Help => Ok(LineOutcomeView::Show(help_text())),
            MetaKind::Use => Ok(
                LineOutcomeView::Show(
                    if args.len() > 0 {
                        seq![switched_line(args[0])]
                    } else {
                        seq![plain_line("Usage: USE <graph_name>"@)]
                    },
                ),
            ),
            MetaKind::List => Ok(LineOutcomeView::Run(CommandsView::List)),
            MetaKind::Schema => schema_outcome(current, args),
            MetaKind::Exit => Ok(LineOutcomeView::Nothing),
            MetaKind::Query => query_outcome(current, args, false),
            MetaKind::RoQuery => query_outcome(current, args, true),
        },
    }
}

/// The current graph after a classified line was acted on: the graph that `USE` names,
/// and for every other line the graph as it was.
pub open spec fn acted_graph(current: Option<Seq<char>>, line: Option<ParsedLineView>) -> Option<
    Seq<char>,
> {
    match line {
        Some(ParsedLineView::Meta { kind: MetaKind::Use, args }) if args.len() > 0 => Some(
            args[0],
        ),
        _ => current,
    }
}

/// Whether a raw input line ends the session: trimmed, it is exactly `exit` or `quit`, in
/// lower case.
pub open spec fn ends_session(line: Seq<char>) -> bool {
    trimmed(line) == "exit"@ || trimmed(line) == "quit"@
}

/// One entry of the command reference.
fn help_line(command: &str, meaning: &str) -> (r: Line)
    ensures
        r@ == help_entry(command@, meaning@),
{
    let mut line = Line::new();
    line.push(Span::plain("  "));
    line.push(Span::styled(command, Style::Command));
    line.push(Span::plain(meaning));
    assert(line@ =~= help_entry(command@, meaning@));
    line
}

impl FalkorCli {
    /// The command reference of the interactive session.
    pub fn show_help() -> (r: Vec<Line>)
        ensures
            r.deep_view() == help_text(),
    {
        let mut lines: Vec<Line> = Vec::new();
        push_line(&mut lines, Line::styled("FalkorDB CLI Commands:", Style::Banner));
        push_line(
            &mut lines,
            help_line("MATCH (n) RETURN n", "            - Execute Cypher query on current graph"),
        );
        push_line(
            &mut lines,
            help_line("QUERY <cypher_query>", "          - Execute Cypher query on current graph"),
        );
        push_line(
            &mut lines,
            help_line(
                "RO-QUERY <cypher_query>",
                "       - Execute read-only query on current graph",
            ),
        );
        push_line(&mut lines, help_line("USE <graph_name>", "       - Switch to specified graph"));
        push_line(&mut lines, help_line("LIST", "              - List all graphs"));
        push_line(&mut lines, help_line("SCHEMA", "            - Show current graph schema"));
        push_line(&mut lines, help_line("SCHEMA <graph>", "   - Show schema for specific graph"));
        push_line(&mut lines, help_line("HELP", "              - Show this help"));
        push_line(&mut lines, help_line("EXIT/QUIT", "        - Exit interactive mode"));
        push_line(&mut lines, Line::new());
        push_line(&mut lines, Line::styled("Query Examples:", Style::Examples));
        push_line(&mut lines, Line::plain("  CREATE (n:Person {name: 'John'})"));
        push_line(&mut lines, Line::plain("  MATCH (n:Person) RETURN n.name"));
        push_line(&mut lines, Line::plain("  MATCH (a)-[r]->(b) RETURN a, r, b LIMIT 10"));
        assert(lines.deep_view() =~= help_text());
        lines
    }

    /// A query on the current graph, or `NoGraphSelected` where there is none.
    fn run_on_current(&self, query: String, read_only: bool) -> (r: Result<
        LineOutcome,
        CommandError,
    >)
        ensures
            view_result(r) == query_on_current(self.graph(), query@, read_only),
    {
        match self.get_graph_name(None) {
            Ok(graph) => Ok(
                LineOutcome::Run(
                    if read_only {
                        Commands::RoQuery { graph, query, params: None }
                    } else {
                        Commands::Query { graph, query, params: None }
                    },
                ),
            ),
            Err(_) => Err(CommandError::NoGraphSelected { hint: GraphHint::Select }),
        }
    }

    /// What a meta-command that takes a query asks for.
    fn run_query_args(&self, args: &Vec<String>, read_only: bool) -> (r: Result<
        LineOutcome,
        CommandError,
    >)
        ensures
            view_result(r) == query_outcome(self.graph(), args.deep_view(), read_only),
    {
        if args.len() == 0 {
            let mut lines: Vec<Line> = Vec::new();
            let usage = if read_only {
                "Usage: RO-QUERY <cypher_query>"
            } else {
                "Usage: QUERY <cypher_query>"
            };
            push_line(&mut lines, Line::plain(usage));
            assert(lines.deep_view() =~= seq![plain_line(usage@)]);
            Ok(LineOutcome::Show(lines))
        } else {
            assert(args.deep_view()[0] == args@[0]@);
            self.run_on_current(args[0].clone(), read_only)
        }
    }

    /// Acts on a classified line: changes the current graph where the line is `USE` with a
    /// graph name, and says what the caller is to show or to run.
    pub fn act(&mut self, line: Option<ParsedLine>) -> (r: Result<LineOutcome, CommandError>)
        ensures
            view_result(r) == acted(old(self).graph(), option_view(line)),
            final(self).graph() == acted_graph(old(self).graph(), option_view(line)),
            final(self).connection == old(self).connection,
            final(self).output_mode == old(self).output_mode,
            final(self).quiet == old(self).quiet,
            final(self).raw == old(self).raw,
    {
        match line {
            None => Ok(LineOutcome::Nothing),
            Some(ParsedLine::LiteralQuery { text }) => self.run_on_current(text, false),
            Some(ParsedLine::Meta { kind, args }) => {
                if args.len() > 0 {
                    assert(args.deep_view()[0] == args@[0]@);
                }
                match kind {
                    MetaKind::Help => Ok(LineOutcome::Show(Self::show_help())),
                    MetaKind::Use => {
                        let mut lines: Vec<Line> = Vec::new();
                        if args.len() > 0 {
                            let mut line = Line::new();
                            line.push(Span::plain("Switched to graph: "));
                            line.push(Span::styled(args[0].as_str(), Style::Graph));
                            assert(line@ =~= switched_line(args@[0]@));
                            push_line(&mut lines, line);
                            assert(lines.deep_view() =~= seq![switched_line(args@[0]@)]);
                            self.set_graph(args[0].clone());
                        } else {
                            push_line(&mut lines, Line::plain("Usage: USE <graph_name>"));
                            assert(lines.deep_view() =~= seq![
                                plain_line("Usage: USE <graph_name>"@),
                            ]);
                        }
                        Ok(LineOutcome::Show(lines))
                    },
                    MetaKind::List => Ok(LineOutcome::Run(Commands::List)),
                    MetaKind::Schema => {
                        let named = if args.len() > 0 {
                            Some(args[0].as_str())
                        } else {
                            None
                        };
                        match self.get_graph_name(named) {
                            Ok(graph) => Ok(LineOutcome::Run(Commands::Schema { graph })),
                            Err(e) => Err(e),
                        }
                    },
                    MetaKind::Exit => Ok(LineOutcome::Nothing),
                    MetaKind::Query => self.run_query_args(&args, false),
                    MetaKind::RoQuery => self.run_query_args(&args, true),
                }
            },
        }
    }

    /// Classifies one input line and acts on it.
    pub fn handle_interactive_command(&mut self, line: &str) -> (r: Result<
        LineOutcome,
        CommandError,
    >)
        ensures
            view_result(r) == acted(old(self).graph(), classified(line@)),
            final(self).graph() == acted_graph(old(self).graph(), classified(line@)),
            final(self).connection == old(self).connection,
            final(self).output_mode == old(self).output_mode,
            final(self).quiet == old(self).quiet,
            final(self).raw == old(self).raw,
    {
        let parsed = classify(line);
        self.act(parsed)
    }
}

/// What the line reader hands to the session.
#[derive(Debug, Clone, PartialEq, Eq)]
pub enum ReplEvent {
    /// A line was read.
    Line(String),
    /// The user interrupted the reader.
    Interrupted,
    /// The input has ended.
    Eof,
    /// The reader failed; the text describes the failure.
    Failed(String),
}

/// What the driver of the read loop is to do after one event.
#[derive(Debug)]
pub struct ReplStep {
    /// The line to add to the history, where the event was a line.
    pub history: Option<String>,
    /// What the event asks for, or the error of the command. An error is reported and
    /// does not end the session.
    pub outcome: Result<LineOutcome, CommandError>,
    /// What to write to the error stream about a reader that failed.
    pub log: Option<String>,
    /// Whether the loop ends after this event.
    pub terminate: bool,
}

/// What is shown when the reader was interrupted or the input has ended.
pub open spec fn farewell(interrupted: bool) -> Seq<Seq<SpanView>> {
    seq![plain_line(if interrupted {
        "CTRL-C"@
    } else {
        "CTRL-D"@
    })]
}

/// The banner of the interactive session: two lines, and a third that names the current
/// graph where there is one.
pub open spec fn banner_text(current: Option<Seq<char>>) -> Seq<Seq<SpanView>> {
    let head = seq![
        styled_line("FalkorDB CLI - Interactive Mode"@, Style::Banner),
        plain_line("Type 'help' for commands, 'exit' to quit"@),
    ];
    match current {
        Some(graph) => head.push(seq![plain("Current graph: "@), styled(graph, Style::Graph)]),
        None => head,
    }
}

/// The prompt: the current graph and `> `, or `falkordb> ` where no graph is selected.
pub open spec fn prompt_text(current: Option<Seq<char>>) -> Seq<SpanView> {
    match current {
        Some(graph) => seq![styled(graph, Style::Graph), plain("> "@)],
        None => plain_line("falkordb> "@),
    }
}

/// The report of a command's error: the label `Error`, a colon and the error's text.
pub open spec fn report_text(e: CommandErrorView) -> Seq<SpanView> {
    seq![styled("Error"@, Style::Failure), plain(": "@ + error_text(e))]
}

/// Whether the raw input line `line` ends the session.
pub fn is_exit_line(line: &str) -> (r: bool)
    ensures
        r == ends_session(line@),
{
    let t = trim(line);
    str_eq(t, "exit") || str_eq(t, "quit")
}

/// The directory that holds the history file: the home directory where it is known, else
/// the profile directory. `None` stands for the directory the program runs in.
pub fn history_directory(home: Option<String>, user_profile: Option<String>) -> (r: Option<String>)
    ensures
        r == (match home {
            Some(dir) => Some(dir),
            None => user_profile,
        }),
{
    match home {
        Some(dir) => Some(dir),
        None => user_profile,
    }
}

/// The name of the history file.
pub fn history_file_name() -> (r: &'static str)
    ensures
        r@ == ".falkordb-cli_history"@,
{
    ".falkordb-cli_history"
}

/// What to write to the error stream when the history could not be saved to `path`.
pub fn history_failure(path: &str, cause: &str) -> (r: String)
    ensures
        r@ == "Failed to save history '"@ + path@ + "': "@ + cause@,
{
    let mut r = String::from_str("Failed to save history '");
    r.append(path);
    r.append("': ");
    r.append(cause);
    r
}

/// The report of a command's error, for the error stream.
pub fn error_report(e: &CommandError) -> (r: Line)
    ensures
        r@ == report_text(e@),
{
    let mut text = String::from_str(": ");
    let message = e.message();
    text.append(message.as_str());
    let mut line = Line::new();
    line.push(Span::styled("Error", Style::Failure));
    line.push(Span::plain(text.as_str()));
    assert(line@ =~= report_text(e@));
    line
}

impl FalkorCli {
    /// The banner that opens the interactive session.
    pub fn banner(&self) -> (r: Vec<Line>)
        ensures
            r.deep_view() == banner_text(self.graph()),
    {
        let mut lines: Vec<Line> = Vec::new();
        push_line(&mut lines, Line::styled("FalkorDB CLI - Interactive Mode", Style::Banner));
        push_line(&mut lines, Line::plain("Type 'help' for commands, 'exit' to quit"));
        match &self.current_graph {
            Some(graph) => {
                let mut line = Line::new();
                line.push(Span::plain("Current graph: "));
                line.push(Span::styled(graph.as_str(), Style::Graph));
                assert(line@ =~= seq![plain("Current graph: "@), styled(graph@, Style::Graph)]);
                push_line(&mut lines, line);
            },
            None => {},
        }
        assert(lines.deep_view() =~= banner_text(self.graph()));
        lines
    }

    /// The prompt of the interactive session.
    pub fn prompt(&self) -> (r: Line)
        ensures
            r@ == prompt_text(self.graph()),
    {
        match &self.current_graph {
            Some(graph) => {
                let mut line = Line::new();
                line.push(Span::styled(graph.as_str(), Style::Graph));
                line.push(Span::plain("> "));
                assert(line@ =~= prompt_text(self.graph()));
                line
            },
            None => Line::plain("falkordb> "),
        }
    }

    /// Advances the interactive session by one event of the line reader.
    ///
    /// A line goes to the history, is classified and acted on, and ends the session only
    /// where it is `exit` or `quit`, whatever its command did. An interrupt and the end of
    /// the input are announced and end the session; so does a reader that failed, which is
    /// logged.
    pub fn interactive_mode(&mut self, event: ReplEvent) -> (r: ReplStep)
        ensures
            final(self).connection == old(self).connection,
            final(self).output_mode == old(self).output_mode,
            final(self).quiet == old(self).quiet,
            final(self).raw == old(self).raw,
            match event {
                ReplEvent::Line(line) => {
                    &&& option_view(r.history) == Some(line@)
                    &&& view_result(r.outcome) == acted(old(self).graph(), classified(line@))
                    &&& final(self).graph() == acted_graph(old(self).graph(), classified(line@))
                    &&& r.log is None
                    &&& r.terminate == ends_session(line@)
                },
                ReplEvent::Interrupted => {
                    &&& r.history is None
                    &&& view_result(r.outcome) == Ok::<LineOutcomeView, CommandErrorView>(
                        LineOutcomeView::Show(farewell(true)),
                    )
                    &&& final(self).graph() == old(self).graph()
                    &&& r.log is None
                    &&& r.terminate
                },
                ReplEvent::Eof => {
                    &&& r.history is None
                    &&& view_result(r.outcome) == Ok::<LineOutcomeView, CommandErrorView>(
                        LineOutcomeView::Show(farewell(false)),
                    )
                    &&& final(self).graph() == old(self).graph()
                    &&& r.log is None
                    &&& r.terminate
                },
                ReplEvent::Failed(cause) => {
                    &&& r.history is None
                    &&& view_result(r.outcome) == Ok::<LineOutcomeView, CommandErrorView>(
                        LineOutcomeView::Nothing,
                    )
                    &&& final(self).graph() == old(self).graph()
                    &&& option_view(r.log) == Some("Error: "@ + cause@)
                    &&& r.terminate
                },
            },
    {
        match event {
            ReplEvent::Line(line) => {
                let outcome = self.handle_interactive_command(line.as_str());
                let terminate = is_exit_line(line.as_str());
                ReplStep { history: Some(line), outcome, log: None, terminate }
            },
            ReplEvent::Interrupted => {
                let mut lines: Vec<Line> = Vec::new();
                push_line(&mut lines, Line::plain("CTRL-C"));
                assert(lines.deep_view() =~= farewell(true));
                ReplStep {
                    history: None,
                    outcome: Ok(LineOutcome::Show(lines)),
                    log: None,
                    terminate: true,
                }
            },
            ReplEvent::Eof => {
                let mut lines: Vec<Line> = Vec::new();
                push_line(&mut lines, Line::plain("CTRL-D"));
                assert(lines.deep_view() =~= farewell(false));
                ReplStep {
                    history: None,
                    outcome: Ok(LineOutcome::Show(lines)),
                    log: None,
                    terminate: true,
                }
            },
            ReplEvent::Failed(cause) => {
                let mut text = String::from_str("Error: ");
                text.append(cause.as_str());
                ReplStep {
                    history: None,
                    outcome: Ok(LineOutcome::Nothing),
                    log: Some(text),
                    terminate: true,
                }
            },
        }
    }
}

/// The kind that each keyword names.
pub proof fn lemma_keyword_kinds()
    ensures
        keyword_kind("HELP"@) == Some(MetaKind::Help),
        keyword_kind("USE"@) == Some(MetaKind::Use),
        keyword_kind("LIST"@) == Some(MetaKind::List),
        keyword_kind("SCHEMA"@) == Some(MetaKind::Schema),
        keyword_kind("EXIT"@) == Some(MetaKind::Exit),
        keyword_kind("QUIT"@) == Some(MetaKind::Exit),
        keyword_kind("QUERY"@) == Some(MetaKind::Query),
        keyword_kind("RO-QUERY"@) == Some(MetaKind::RoQuery),
{
    reveal_strlit("HELP");
    reveal_strlit("USE");
    reveal_strlit("LIST");
    reveal_strlit("SCHEMA");
    reveal_strlit("EXIT");
    reveal_strlit("QUIT");
    reveal_strlit("QUERY");
    reveal_strlit("RO-QUERY");
    assert("HELP"@.len() == 4 && "USE"@.len() == 3 && "LIST"@.len() == 4 && "SCHEMA"@.len() == 6
        && "EXIT"@.len() == 4 && "QUIT"@.len() == 4 && "QUERY"@.len() == 5 && "RO-QUERY"@.len()
        == 8);
    assert("HELP"@[0] == 'H' && "LIST"@[0] == 'L' && "EXIT"@[0] == 'E' && "QUIT"@[0] == 'Q');
}

/// A line whose first word is a keyword in any case is the meta-command of that keyword:
/// where the upper-case form of the first word is `keyword`, and `keyword` names `kind`,
/// the line is classified as `Meta` of `kind`.
pub proof fn lemma_keyword_line(line: Seq<char>, keyword: Seq<char>, kind: MetaKind)
    requires
        trimmed(line).len() > 0,
        uppercase(first_word(trimmed(line))) == keyword,
        keyword_kind(keyword) == Some(kind),
    ensures
        classified(line) matches Some(ParsedLineView::Meta { kind: k, .. }) && k == kind,
{
}

/// `USE` without a graph name changes nothing and runs nothing: where the first word of a
/// line is `USE` in any case and no second word follows, the current graph stays as it
/// is, and what the line asks for is a word on usage.
pub proof fn lemma_use_without_name(current: Option<Seq<char>>, line: Seq<char>)
    requires
        trimmed(line).len() > 0,
        uppercase(first_word(trimmed(line))) == "USE"@,
        second_word(trimmed(line)) is None,
    ensures
        acted_graph(current, classified(line)) == current,
        acted(current, classified(line)) == Ok::<LineOutcomeView, CommandErrorView>(
            LineOutcomeView::Show(seq![plain_line("Usage: USE <graph_name>"@)]),
        ),
{
    lemma_keyword_kinds();
}

/// Without a current graph, a line that starts with no keyword fails before anything is
/// run: it asks for nothing but `NoGraphSelected`, and no graph is selected after it.
pub proof fn lemma_literal_without_graph(line: Seq<char>)
    requires
        trimmed(line).len() > 0,
        keyword_kind(uppercase(first_word(trimmed(line)))) is None,
    ensures
        acted(None, classified(line)) == Err::<LineOutcomeView, CommandErrorView>(
            CommandErrorView::NoGraphSelected { hint: GraphHint::Select },
        ),
        acted_graph(None, classified(line)) == None::<Seq<char>>,
{
}

/// No line makes the session run anything while no graph is selected, except one that
/// names its own graph (`SCHEMA` with a graph) or needs none (`LIST`).
pub proof fn lemma_runs_need_a_graph(line: Seq<char>)
    ensures
        acted(None, classified(line)) matches Ok(LineOutcomeView::Run(command)) ==> command
            is List || command is Schema,
{
}

/// Whether `word` stands in `text` at the place `at`.
pub open spec fn stands_at(word: Seq<char>, text: Seq<char>, at: int) -> bool {
    0 <= at && at + word.len() <= text.len() && text.subrange(at, at + word.len()) == word
}

/// Whether the entry at `line` of the command reference names `word` at the place `at` of
/// its command.
pub open spec fn help_names_at(word: Seq<char>, line: int, at: int) -> bool {
    &&& 0 <= line < help_text().len()
    &&& help_text()[line].len() == 3
    &&& help_text()[line][1].style == Style::Command
    &&& stands_at(word, help_text()[line][1].text, at)
}

/// Whether the command reference names `word` in one of its commands.
pub open spec fn help_names(word: Seq<char>) -> bool {
    exists|line: int, at: int| help_names_at(word, line, at)
}

/// The command reference names every keyword that the classifier knows.
pub proof fn lemma_help_names_keywords()
    ensures
        help_names("HELP"@),
        help_names("USE"@),
        help_names("LIST"@),
        help_names("SCHEMA"@),
        help_names("EXIT"@),
        help_names("QUIT"@),
        help_names("QUERY"@),
        help_names("RO-QUERY"@),
{
    reveal_strlit("HELP");
    reveal_strlit("USE");
    reveal_strlit("LIST");
    reveal_strlit("SCHEMA");
    reveal_strlit("EXIT");
    reveal_strlit("QUIT");
    reveal_strlit("QUERY");
    reveal_strlit("RO-QUERY");
    reveal_strlit("USE <graph_name>");
    reveal_strlit("EXIT/QUIT");
    reveal_strlit("QUERY <cypher_query>");
    reveal_strlit("RO-QUERY <cypher_query>");
    let text = help_text();
    assert("HELP"@.subrange(0, 4) =~= "HELP"@);
    assert(help_names_at("HELP"@, 8, 0));
    assert("USE <graph_name>"@.subrange(0, 3) =~= "USE"@);
    assert(help_names_at("USE"@, 4, 0));
    assert("LIST"@.subrange(0, 4) =~= "LIST"@);
    assert(help_names_at("LIST"@, 5, 0));
    assert("SCHEMA"@.subrange(0, 6) =~= "SCHEMA"@);
    assert(help_names_at("SCHEMA"@, 6, 0));
    assert("EXIT/QUIT"@.subrange(0, 4) =~= "EXIT"@);
    assert(help_names_at("EXIT"@, 9, 0));
    assert("EXIT/QUIT"@.subrange(5, 9) =~= "QUIT"@);
    assert(help_names_at("QUIT"@, 9, 5));
    assert("QUERY <cypher_query>"@.subrange(0, 5) =~= "QUERY"@);
    assert(help_names_at("QUERY"@, 2, 0));
    assert("RO-QUERY <cypher_query>"@.subrange(0, 8) =~= "RO-QUERY"@);
    assert(help_names_at("RO-QUERY"@, 3, 0));
}

/// The first word of a line is delimited by white space: it is not empty, holds no white
/// space, and is followed by white space or by the end of the trimmed line.
pub proof fn lemma_first_word(line: Seq<char>)
    requires
        trimmed(line).len() > 0,
    ensures
        first_word(trimmed(line)).len() > 0,
        forall|i: int|
            0 <= i < first_word(trimmed(line)).len() ==> !is_whitespace(
                #[trigger] first_word(trimmed(line))[i],
            ),
        first_word(trimmed(line)).len() < trimmed(line).len() ==> is_whitespace(
            trimmed(line)[first_word(trimmed(line)).len() as int],
        ),
{
    let t = trimmed(line);
    lemma_trimmed_edges(line);
    lemma_skip_word(t, 0);
}

/// A line whose first word is no keyword is a literal query, and its text is the whole
/// line, trimmed: a word that only starts with a keyword does not make a meta-command.
pub proof fn lemma_other_lines_are_literal(line: Seq<char>)
    requires
        trimmed(line).len() > 0,
        keyword_kind(uppercase(first_word(trimmed(line)))) is None,
    ensures
        classified(line) == Some(ParsedLineView::LiteralQuery { text: trimmed(line) }),
{
}

/// Once a graph is selected, one stays selected: no line takes the current graph away.
pub proof fn lemma_graph_stays_selected(current: Option<Seq<char>>, line: Seq<char>)
    requires
        current is Some,
    ensures
        acted_graph(current, classified(line)) is Some,
{
}

/// A text in one pair of double quotes or of single quotes is that text without the pair,
/// whatever it holds; a text of fewer than two characters is never taken for a pair.
pub proof fn lemma_unquoted(text: Seq<char>)
    ensures
        unquoted(seq!['"'] + text + seq!['"']) == text,
        unquoted(seq!['\''] + text + seq!['\'']) == text,
        text.len() < 2 ==> unquoted(text) == text,
{
    let double = seq!['"'] + text + seq!['"'];
    assert(double.subrange(1, double.len() - 1) =~= text);
    let single = seq!['\''] + text + seq!['\''];
    assert(single.subrange(1, single.len() - 1) =~= text);
}

/// The lines `exit` and `quit` end the session; the same words in capitals do not.
pub proof fn lemma_exit_lines()
    ensures
        ends_session("exit"@),
        ends_session("quit"@),
        !ends_session("EXIT"@),
        !ends_session("QUIT"@),
{
    reveal_strlit("exit");
    reveal_strlit("quit");
    reveal_strlit("EXIT");
    reveal_strlit("QUIT");
    lemma_one_word("exit"@);
    lemma_one_word("quit"@);
    lemma_one_word("EXIT"@);
    lemma_one_word("QUIT"@);
    assert("EXIT"@[0] == 'E' && "QUIT"@[0] == 'Q' && "exit"@[0] == 'e' && "quit"@[0] == 'q');
}

/// The line `USE`, in capitals or in small letters, is the meta-command `Use` without a
/// graph name: it leaves the current graph as it is and asks for a word on usage.
pub proof fn lemma_bare_use(current: Option<Seq<char>>)
    ensures
        classified("USE"@) == Some(
            ParsedLineView::Meta { kind: MetaKind::Use, args: Seq::<Seq<char>>::empty() },
        ),
        classified("use"@) == classified("USE"@),
        acted_graph(current, classified("USE"@)) == current,
        acted(current, classified("USE"@)) == Ok::<LineOutcomeView, CommandErrorView>(
            LineOutcomeView::Show(seq![plain_line("Usage: USE <graph_name>"@)]),
        ),
{
    reveal_strlit("USE");
    reveal_strlit("use");
    lemma_keyword_kinds();
    let upper = "USE"@;
    let lower = "use"@;
    lemma_one_word(upper);
    lemma_one_word(lower);
    assert(first_word(upper) =~= upper);
    assert(first_word(lower) =~= lower);
    assert(is_ascii_text(upper) && is_ascii_text(lower));
    assert(uppercase(upper) =~= upper);
    assert(uppercase(lower) =~= upper) by {
        assert(ascii_upper('u') == 'U' && ascii_upper('s') == 'S' && ascii_upper('e') == 'E');
    }
    assert(second_word(upper) is None);
    assert(second_word(lower) is None);
}

/// The query text of a line that is the keyword `QUERY`, one blank, and `rest`, where
/// `rest` neither starts nor ends with white space: `rest` without the one pair of quotes
/// around it, trimmed.
proof fn lemma_query_text(t: Seq<char>, rest: Seq<char>)
    requires
        t == "QUERY "@ + rest,
        rest.len() > 0,
        !is_whitespace(rest[0]),
        !is_whitespace(rest.last()),
    ensures
        trimmed(t) == t,
        first_word(t) == "QUERY"@,
        query_text(t) == trimmed(unquoted(rest)),
{
    reveal_strlit("QUERY ");
    reveal_strlit("QUERY");
    let head = "QUERY "@;
    assert(head.len() == 6);
    assert(t.len() == 6 + rest.len());
    assert(t[0] == 'Q' && t[1] == 'U' && t[2] == 'E' && t[3] == 'R' && t[4] == 'Y' && t[5] == ' ');
    assert(t.last() == rest.last());
    lemma_trimmed_fixed(t);
    lemma_skip_word(t, 0);
    let end = skip_word(t, 0);
    assert(end == 5) by {
        if end < 5 {
            assert(is_whitespace(t[end]));
        }
        if end > 5 {
            assert(!is_whitespace(t[5]));
        }
    }
    assert(first_word(t) =~= "QUERY"@);
    let tail = t.skip(5);
    assert(tail[0] == ' ');
    assert(tail[1] == rest[0]);
    assert(tail.last() == rest.last());
    lemma_skip_spaces(tail, 0);
    let start = skip_spaces(tail, 0);
    assert(start == 1) by {
        if start > 1 {
            assert(is_whitespace(tail[1]));
        }
    }
    lemma_trim_end(tail, tail.len() as int);
    assert(trim_end(tail, tail.len() as int) == tail.len());
    assert(tail.subrange(1, tail.len() as int) =~= rest);
    assert(trimmed(tail) == rest);
}

/// The query of a `QUERY` line is the same with and without quotes around it: both
/// `QUERY "MATCH (n) RETURN n"` and `QUERY MATCH (n) RETURN n` are the meta-command `Query`
/// with the text `MATCH (n) RETURN n`.
pub proof fn lemma_quoted_query()
    ensures
        classified("QUERY \"MATCH (n) RETURN n\""@) == Some(
            ParsedLineView::Meta { kind: MetaKind::Query, args: seq!["MATCH (n) RETURN n"@] },
        ),
        classified("QUERY MATCH (n) RETURN n"@) == classified("QUERY \"MATCH (n) RETURN n\""@),
{
    reveal_strlit("QUERY \"MATCH (n) RETURN n\"");
    reveal_strlit("QUERY MATCH (n) RETURN n");
    reveal_strlit("\"MATCH (n) RETURN n\"");
    reveal_strlit("MATCH (n) RETURN n");
    reveal_strlit("QUERY ");
    reveal_strlit("QUERY");
    lemma_keyword_kinds();
    let text = "MATCH (n) RETURN n"@;
    let quoted = "\"MATCH (n) RETURN n\""@;
    let bare_line = "QUERY MATCH (n) RETURN n"@;
    let quoted_line = "QUERY \"MATCH (n) RETURN n\""@;
    assert(text.len() == 18 && quoted.len() == 20);
    assert(text[0] == 'M' && text[17] == 'n');
    assert(quoted[0] == '"' && quoted[19] == '"');
    assert(bare_line =~= "QUERY "@ + text);
    assert(quoted_line =~= "QUERY "@ + quoted);
    lemma_query_text(bare_line, text);
    lemma_query_text(quoted_line, quoted);
    lemma_trimmed_fixed(text);
    assert(unquoted(text) == text);
    assert(unquoted(quoted) =~= text);
    assert(is_ascii_text("QUERY"@));
    assert(uppercase("QUERY"@) =~= "QUERY"@);
    assert(query_text(bare_line) == text);
    assert(query_text(quoted_line) == text);
}

} // verus!
