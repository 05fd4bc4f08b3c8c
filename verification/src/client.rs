//! The session: which graph is current and how results are shown.

use vstd::prelude::*;
use crate::cli::option_view;
use crate::commands::{Request, RequestView, list_advice, shown};
use crate::error::{CommandError, CommandErrorView, GraphHint, view_result};
use crate::json::{Json, JsonView, item_views, member_views, pretty_text};
use crate::outcome::{ExecutionTimeView, QueryOutcome, Statistics, StatisticsView, statistics_of};
use crate::output::{Line, Span, SpanView, Style, plain, plain_line, push_line, styled, styled_line};
use crate::text::{
    debug_form, debug_list, decimal, fit, fitted, i64_to_string, join, joined, repeat, repeated,
    signed_decimal, u64_to_string,
};

verus! {

/// How results are rendered.
#[derive(Debug, Clone, Copy, PartialEq, Eq, Structural)]
pub enum OutputMode {
    Table,
    Json,
    Csv,
}

/// An outside type: the connection details that `falkordb` reads from a connection URL.
#[verifier::external_type_specification]
#[verifier::external_body]
pub struct ExFalkorConnectionInfo(falkordb::FalkorConnectionInfo);

/// Where the server is and how to sign in.
#[derive(Debug, Clone, PartialEq, Eq)]
pub struct ConnectionConfig {
    pub hostname: String,
    pub port: u16,
    pub database: u8,
    pub username: Option<String>,
    pub auth: Option<String>,
}

/// The state of one session.
#[derive(Debug)]
pub struct FalkorCli {
    /// The connection details of the server, for the caller to connect with.
    pub connection: falkordb::FalkorConnectionInfo,
    /// The graph that commands without a graph of their own go to.
    pub current_graph: Option<String>,
    pub output_mode: OutputMode,
    pub quiet: bool,
    pub raw: bool,
}

/// The graph that a command goes to: the one it names, else the current one of the
/// session; without either, `NoGraphSelected`, with the advice to name a graph.
pub open spec fn resolved(explicit: Option<Seq<char>>, current: Option<Seq<char>>) -> Result<
    Seq<char>,
    CommandErrorView,
> {
    match explicit {
        Some(name) => Ok(name),
        None => match current {
            Some(name) => Ok(name),
            None => Err(CommandErrorView::NoGraphSelected { hint: GraphHint::Specify }),
        },
    }
}

/// The output mode that a format name selects: `json` and `csv` their own, any other name
/// the table.
pub open spec fn mode_named(format: Seq<char>) -> OutputMode {
    if format == "json"@ {
        OutputMode::Json
    } else if format == "csv"@ {
        OutputMode::Csv
    } else {
        OutputMode::Table
    }
}

/// The part of a connection URL that signs in: the username and the password with a colon
/// between, either of them alone, or nothing; with an `@` behind where there is any.
pub open spec fn credentials(username: Option<Seq<char>>, auth: Option<Seq<char>>) -> Seq<char> {
    match (username, auth) {
        (Some(user), Some(password)) => user + ":"@ + password + "@"@,
        (None, Some(password)) => password + "@"@,
        (Some(user), None) => user + "@"@,
        (None, None) => Seq::empty(),
    }
}

/// The connection URL of a server.
pub open spec fn connection_url(
    hostname: Seq<char>,
    port: u16,
    database: u8,
    username: Option<Seq<char>>,
    auth: Option<Seq<char>>,
) -> Seq<char> {
    "redis://"@ + credentials(username, auth) + hostname + ":"@ + decimal(port as nat) + "/"@
        + decimal(database as nat)
}

/// Why `falkordb` refuses a connection URL: the text of the error that
/// `FalkorConnectionInfo::try_from` gives for it, or `None` where it accepts the URL.
pub uninterp spec fn url_refusal(url: Seq<char>) -> Option<Seq<char>>;

/// Calls `falkordb::FalkorConnectionInfo::try_from` on a connection URL; an error comes
/// back as its text. Trusted: the call only reads the URL, so whether it is accepted, and
/// the text of the refusal, depend on the URL alone; they are named `url_refusal` in
/// contracts. Nothing is promised of the connection details.
#[verifier::external_body]
fn connection_info(url: &str) -> (r: Result<falkordb::FalkorConnectionInfo, String>)
    ensures
        match r {
            Ok(_) => url_refusal(url@) is None,
            Err(cause) => url_refusal(url@) == Some(cause@),
        },
{
    falkordb::FalkorConnectionInfo::try_from(url).map_err(|e| e.to_string())
}

/// The session that starts on what the collaborator's library made of the connection URL:
/// with no graph selected and the output mode that `format` names; or
/// `ConnectionSetupFailed` with the library's message where it refused the URL.
pub open spec fn session_started(
    r: Result<FalkorCli, CommandError>,
    connection: Result<falkordb::FalkorConnectionInfo, String>,
    format: Seq<char>,
    quiet: bool,
    raw: bool,
) -> bool {
    match connection {
        Ok(info) => r matches Ok(cli) && {
            &&& cli.connection == info
            &&& cli.current_graph is None
            &&& cli.output_mode == mode_named(format)
            &&& cli.quiet == quiet
            &&& cli.raw == raw
        },
        Err(cause) => r matches Err(e) && e@ == (CommandErrorView::ConnectionSetupFailed {
            message: "Failed to create connection info: "@ + cause@,
        }),
    }
}

impl ConnectionConfig {
    /// The connection URL of this server.
    pub fn url(&self) -> (r: String)
        ensures
            r@ == connection_url(
                self.hostname@,
                self.port,
                self.database,
                option_view(self.username),
                option_view(self.auth),
            ),
    {
        let mut r = String::from_str("redis://");
        let ghost scheme = r@;
        match (&self.username, &self.auth) {
            (Some(user), Some(password)) => {
                r.append(user.as_str());
                r.append(":");
                r.append(password.as_str());
                r.append("@");
                assert(r@ =~= scheme + (user@ + ":"@ + password@ + "@"@));
            },
            (None, Some(password)) => {
                r.append(password.as_str());
                r.append("@");
                assert(r@ =~= scheme + (password@ + "@"@));
            },
            (Some(user), None) => {
                r.append(user.as_str());
                r.append("@");
                assert(r@ =~= scheme + (user@ + "@"@));
            },
            (None, None) => {
                assert(r@ =~= scheme + Seq::<char>::empty());
            },
        }
        r.append(self.hostname.as_str());
        r.append(":");
        let port = u64_to_string(self.port as u64);
        r.append(port.as_str());
        r.append("/");
        let database = u64_to_string(self.database as u64);
        r.append(database.as_str());
        r
    }
}

impl OutputMode {
    /// The output mode that the format name `format` selects.
    pub fn from_name(format: &str) -> (r: OutputMode)
        ensures
            r == mode_named(format@),
    {
        if crate::text::str_eq(format, "json") {
            OutputMode::Json
        } else if crate::text::str_eq(format, "csv") {
            OutputMode::Csv
        } else {
            OutputMode::Table
        }
    }
}

impl FalkorCli {
    /// A session on the server that `config` describes, with no graph selected and the
    /// output mode that `format` names. Fails with `ConnectionSetupFailed`, and the
    /// collaborator's message, exactly where the collaborator's library refuses the
    /// connection URL of `config`.
    pub fn new(config: &ConnectionConfig, format: String, quiet: bool, raw: bool) -> (r: Result<
        FalkorCli,
        CommandError,
    >)
        ensures
            match url_refusal(
                connection_url(
                    config.hostname@,
                    config.port,
                    config.database,
                    option_view(config.username),
                    option_view(config.auth),
                ),
            ) {
                None => r matches Ok(cli) && {
                    &&& cli.current_graph is None
                    &&& cli.output_mode == mode_named(format@)
                    &&& cli.quiet == quiet
                    &&& cli.raw == raw
                },
                Some(cause) => r matches Err(e) && e@ == (CommandErrorView::ConnectionSetupFailed {
                    message: "Failed to create connection info: "@ + cause,
                }),
            },
    {
        let url = config.url();
        let connection = connection_info(url.as_str());
        Self::with_connection(connection, format.as_str(), quiet, raw)
    }

    /// The session that starts on `connection`, which is what the collaborator's library
    /// made of the connection URL.
    pub fn with_connection(
        connection: Result<falkordb::FalkorConnectionInfo, String>,
        format: &str,
        quiet: bool,
        raw: bool,
    ) -> (r: Result<FalkorCli, CommandError>)
        ensures
            session_started(r, connection, format@, quiet, raw),
    {
        match connection {
            Ok(connection) => Ok(
                FalkorCli {
                    connection,
                    current_graph: None,
                    output_mode: OutputMode::from_name(format),
                    quiet,
                    raw,
                },
            ),
            Err(cause) => {
                let mut message = String::from_str("Failed to create connection info: ");
                message.append(cause.as_str());
                Err(CommandError::ConnectionSetupFailed { message })
            },
        }
    }

    /// The model of the current graph.
    pub open spec fn graph(&self) -> Option<Seq<char>> {
        option_view(self.current_graph)
    }

    /// Makes `graph_name` the current graph, whatever it was before.
    pub fn set_graph(&mut self, graph_name: String)
        ensures
            final(self).current_graph == Some(graph_name),
            final(self).connection == old(self).connection,
            final(self).output_mode == old(self).output_mode,
            final(self).quiet == old(self).quiet,
            final(self).raw == old(self).raw,
    {
        self.current_graph = Some(graph_name);
    }

    /// The graph that a command goes to: `provided` if it is given, else the current graph;
    /// without either, `NoGraphSelected`.
    pub fn get_graph_name(&self, provided: Option<&str>) -> (r: Result<String, CommandError>)
        ensures
            view_result(r) == resolved(option_view(provided), self.graph()),
    {
        match provided {
            Some(name) => Ok(String::from_str(name)),
            None => match &self.current_graph {
                Some(name) => Ok(name.clone()),
                None => Err(CommandError::NoGraphSelected { hint: GraphHint::Specify }),
            },
        }
    }

    /// Graphs cannot be listed through the collaborator: always `UnimplementedFeature`,
    /// with the advice to list the keys of the server instead.
    pub fn list_graphs() -> (r: Result<Request, CommandError>)
        ensures
            view_result(r) == Err::<RequestView, CommandErrorView>(
                CommandErrorView::UnimplementedFeature { message: list_advice() },
            ),
    {
        Err(
            CommandError::UnimplementedFeature {
                message: String::from_str(
                    "Graph listing not directly supported in current falkordb-rs version\nUse Redis CLI: KEYS *",
                ),
            },
        )
    }
}

/// The width of a column of the table, in characters.
pub open spec fn column_width() -> nat {
    15
}

/// A count that was not reported is shown as 0.
pub open spec fn count_shown(count: Option<i64>) -> int {
    match count {
        Some(n) => n as int,
        None => 0,
    }
}

/// One line of the statistics block: a label and a count.
pub open spec fn count_line(label: Seq<char>, count: Option<i64>) -> Seq<SpanView> {
    plain_line(label + signed_decimal(count_shown(count)))
}

/// The five counts of the statistics block, under its heading.
pub open spec fn counts_block(stats: StatisticsView) -> Seq<Seq<SpanView>> {
    seq![
        styled_line("Statistics:"@, Style::Heading),
        count_line("  Nodes created: "@, stats.nodes_created),
        count_line("  Nodes deleted: "@, stats.nodes_deleted),
        count_line("  Relationships created: "@, stats.relationships_created),
        count_line("  Relationships deleted: "@, stats.relationships_deleted),
        count_line("  Properties set: "@, stats.properties_set),
    ]
}

/// The statistics block of the table: the five counts, then the execution time where one
/// was reported, then an empty line.
pub open spec fn statistics_block(stats: StatisticsView) -> Seq<Seq<SpanView>> {
    match stats.execution_time {
        Some(time) => counts_block(stats).push(
            plain_line("  Query internal execution time: "@ + time.millis + " milliseconds"@),
        ).push(Seq::empty()),
        None => counts_block(stats).push(Seq::empty()),
    }
}

/// The span at place `i` behind the opening bar of the header row: a column name in its
/// field at the even places, a bar between blanks at the odd ones.
pub open spec fn header_span(header: Seq<Seq<char>>, i: int) -> SpanView {
    if i % 2 == 0 {
        styled(fitted(header[i / 2], column_width()), Style::Heading)
    } else {
        plain(" | "@)
    }
}

/// The header row of the table: each column name in a field of fifteen characters, with
/// bars between.
pub open spec fn header_row(header: Seq<Seq<char>>) -> Seq<SpanView> {
    seq![plain("| "@)] + Seq::new(2 * header.len(), |i: int| header_span(header, i))
}

/// The row of dashes under the header row, one stretch for each column.
pub open spec fn separator_row(columns: nat) -> Seq<SpanView> {
    plain_line("|"@ + repeated("-----------------+"@, columns))
}

/// The notice that stands in the table where the rows would: they cannot be reached.
pub open spec fn table_notice() -> Seq<SpanView> {
    plain_line("| Data available but iteration requires mutable access |"@)
}

/// The rows part of the table: nothing without columns, else the header row, the
/// separator row and the notice.
pub open spec fn table_body(header: Seq<Seq<char>>) -> Seq<Seq<SpanView>> {
    if header.len() == 0 {
        Seq::empty()
    } else {
        seq![header_row(header), separator_row(header.len()), table_notice()]
    }
}

/// The table of a result: the statistics block unless `quiet`, then the rows part.
pub open spec fn table(stats: StatisticsView, header: Seq<Seq<char>>, quiet: bool) -> Seq<
    Seq<SpanView>,
> {
    if quiet {
        table_body(header)
    } else {
        statistics_block(stats) + table_body(header)
    }
}

/// The notice that stands in the CSV output where the rows would.
pub open spec fn csv_notice() -> Seq<SpanView> {
    plain_line("Data rows would be printed here if we had mutable access to the result set"@)
}

/// The CSV output of a result: nothing without columns, else the column names with
/// commas between, and the notice.
pub open spec fn csv(header: Seq<Seq<char>>) -> Seq<Seq<SpanView>> {
    if header.len() == 0 {
        Seq::empty()
    } else {
        seq![plain_line(joined(header, ","@)), csv_notice()]
    }
}

/// The raw output of a result: one line with the debug forms of the column names and of
/// the statistics lines.
pub open spec fn raw_output(header_debug: Seq<char>, stats_debug: Seq<char>) -> Seq<
    Seq<SpanView>,
> {
    seq![plain_line("Raw result: headers="@ + header_debug + ", stats="@ + stats_debug)]
}

/// One line of the statistics block.
fn render_count(label: &str, count: Option<i64>) -> (r: Line)
    ensures
        r@ == count_line(label@, count),
{
    let n: i64 = match count {
        Some(n) => n,
        None => 0,
    };
    let mut text = String::from_str(label);
    let digits = i64_to_string(n);
    text.append(digits.as_str());
    Line::plain(text.as_str())
}

/// The header row of the table.
fn render_header_row(header: &Vec<String>) -> (r: Line)
    ensures
        r@ == header_row(header.deep_view()),
{
    let ghost names = header.deep_view();
    let mut line = Line::new();
    line.push(Span::plain("| "));
    let mut k: usize = 0;
    assert(line@ =~= seq![plain("| "@)] + Seq::new(0, |i: int| header_span(names, i)));
    while k < header.len()
        invariant
            k <= header.len(),
            names == header.deep_view(),
            names.len() == header.len(),
            line@ == seq![plain("| "@)] + Seq::new((2 * k) as nat, |i: int| header_span(names, i)),
        decreases header.len() - k,
    {
        assert(names[k as int] == header@[k as int]@);
        let field = fit(header[k].as_str(), 15);
        line.push(Span::styled(field.as_str(), Style::Heading));
        line.push(Span::plain(" | "));
        assert(line@ =~= seq![plain("| "@)] + Seq::new(
            (2 * (k + 1)) as nat,
            |i: int| header_span(names, i),
        ));
        k = k + 1;
    }
    line
}

/// The table of a result with these statistics and column names.
pub fn render_table(stats: &Statistics, header: &Vec<String>, quiet: bool) -> (r: Vec<Line>)
    ensures
        r.deep_view() == table(stats@, header.deep_view(), quiet),
{
    let mut lines: Vec<Line> = Vec::new();
    if !quiet {
        push_line(&mut lines, Line::styled("Statistics:", Style::Heading));
        push_line(&mut lines, render_count("  Nodes created: ", stats.nodes_created));
        push_line(&mut lines, render_count("  Nodes deleted: ", stats.nodes_deleted));
        push_line(
            &mut lines,
            render_count("  Relationships created: ", stats.relationships_created),
        );
        push_line(
            &mut lines,
            render_count("  Relationships deleted: ", stats.relationships_deleted),
        );
        push_line(&mut lines, render_count("  Properties set: ", stats.properties_set));
        assert(lines.deep_view() =~= counts_block(stats@));
        match &stats.execution_time {
            Some(time) => {
                let mut text = String::from_str("  Query internal execution time: ");
                text.append(time.millis.as_str());
                text.append(" milliseconds");
                push_line(&mut lines, Line::plain(text.as_str()));
            },
            None => {},
        }
        push_line(&mut lines, Line::new());
        assert(lines.deep_view() =~= statistics_block(stats@));
    }
    let ghost before = lines.deep_view();
    if header.len() > 0 {
        push_line(&mut lines, render_header_row(header));
        let mut dashes = String::from_str("|");
        let stretch = repeat("-----------------+", header.len());
        dashes.append(stretch.as_str());
        push_line(&mut lines, Line::plain(dashes.as_str()));
        push_line(
            &mut lines,
            Line::plain("| Data available but iteration requires mutable access |"),
        );
    }
    assert(lines.deep_view() =~= before + table_body(header.deep_view()));
    lines
}

/// The CSV output of a result with these column names.
pub fn render_csv(header: &Vec<String>) -> (r: Vec<Line>)
    ensures
        r.deep_view() == csv(header.deep_view()),
{
    let mut lines: Vec<Line> = Vec::new();
    if header.len() > 0 {
        let names = join(header, ",");
        push_line(&mut lines, Line::plain(names.as_str()));
        push_line(
            &mut lines,
            Line::plain(
                "Data rows would be printed here if we had mutable access to the result set",
            ),
        );
    }
    assert(lines.deep_view() =~= csv(header.deep_view()));
    lines
}

/// The raw output of a result, given the debug forms of its column names and of its
/// statistics lines.
pub fn render_raw(header_debug: &str, stats_debug: &str) -> (r: Vec<Line>)
    ensures
        r.deep_view() == raw_output(header_debug@, stats_debug@),
{
    let mut text = String::from_str("Raw result: headers=");
    text.append(header_debug);
    text.append(", stats=");
    text.append(stats_debug);
    let mut lines: Vec<Line> = Vec::new();
    push_line(&mut lines, Line::plain(text.as_str()));
    assert(lines.deep_view() =~= raw_output(header_debug@, stats_debug@));
    lines
}

/// A count that was not reported stands in the document as 0.
pub open spec fn count_or_zero(count: Option<i64>) -> i64 {
    match count {
        Some(n) => n,
        None => 0,
    }
}

/// The execution time in the document: the number that was reported, `null` where that
/// number is not finite, and 0.0 where none was reported.
pub open spec fn time_value(time: Option<ExecutionTimeView>) -> JsonView {
    match time {
        Some(t) => if t.number == "null"@ {
            JsonView::Null
        } else {
            JsonView::Number(t.number)
        },
        None => JsonView::Number("0.0"@),
    }
}

/// The `statistics` member of the document.
pub open spec fn statistics_document(stats: StatisticsView) -> JsonView {
    JsonView::Object(
        seq![
            ("nodes_created"@, JsonView::Int(count_or_zero(stats.nodes_created))),
            ("nodes_deleted"@, JsonView::Int(count_or_zero(stats.nodes_deleted))),
            ("relationships_created"@, JsonView::Int(count_or_zero(stats.relationships_created))),
            ("relationships_deleted"@, JsonView::Int(count_or_zero(stats.relationships_deleted))),
            ("properties_set"@, JsonView::Int(count_or_zero(stats.properties_set))),
            ("query_time"@, time_value(stats.execution_time)),
        ],
    )
}

/// The text that stands in the document where the rows would.
pub open spec fn json_notice() -> Seq<char> {
    "Result data serialization would be implemented here"@
}

/// The JSON document of a result: its statistics, its column names, and under `data` the
/// notice.
pub open spec fn outcome_document(stats: StatisticsView, header: Seq<Seq<char>>) -> JsonView {
    JsonView::Object(
        seq![
            ("statistics"@, statistics_document(stats)),
            ("headers"@, JsonView::List(Seq::new(header.len(), |i: int| JsonView::Text(header[i])))),
            ("data"@, JsonView::Text(json_notice())),
        ],
    )
}

/// What JSON mode shows for a document: its pretty-printed text, or `RenderFailed` where
/// the serialiser refuses it.
pub open spec fn json_shown(r: Result<Vec<Line>, CommandError>, document: JsonView) -> bool {
    match pretty_text(document) {
        Some(text) => shown(r) == Ok::<Seq<Seq<SpanView>>, CommandErrorView>(
            seq![plain_line(text)],
        ),
        None => r matches Err(e) && e is RenderFailed,
    }
}

/// What is shown for a graph's schema: for each of the two introspection queries, whether
/// it went through, independently of the other.
pub open spec fn schema_shown(labels: bool, relationship_types: bool) -> Seq<Seq<SpanView>> {
    seq![styled_line("Graph Schema:"@, Style::Heading)] + (if labels {
        seq![
            plain_line("  Node labels:"@),
            plain_line("    (Use query 'CALL db.labels()' to see node labels)"@),
        ]
    } else {
        seq![plain_line("    Unable to retrieve node labels"@)]
    }) + (if relationship_types {
        seq![
            plain_line("  Relationship types:"@),
            plain_line(
                "    (Use query 'CALL db.relationshipTypes()' to see relationship types)"@,
            ),
        ]
    } else {
        seq![plain_line("    Unable to retrieve relationship types"@)]
    })
}

/// What the session shows for a result: in raw mode the raw output, whatever the output
/// mode; else the output of its mode.
pub open spec fn displayed(
    r: Result<Vec<Line>, CommandError>,
    raw: bool,
    mode: OutputMode,
    quiet: bool,
    header: Seq<Seq<char>>,
    stats: Seq<Seq<char>>,
    time: Option<ExecutionTimeView>,
) -> bool {
    if raw {
        shown(r) == Ok::<Seq<Seq<SpanView>>, CommandErrorView>(
            raw_output(debug_form(header), debug_form(stats)),
        )
    } else {
        match mode {
            OutputMode::Json => json_shown(r, outcome_document(statistics_of(stats, time), header)),
            OutputMode::Csv => shown(r) == Ok::<Seq<Seq<SpanView>>, CommandErrorView>(csv(header)),
            OutputMode::Table => shown(r) == Ok::<Seq<Seq<SpanView>>, CommandErrorView>(
                table(statistics_of(stats, time), header, quiet),
            ),
        }
    }
}

/// A member of an object.
fn member(key: &str, value: Json) -> (r: (String, Json))
    ensures
        r.0@ == key@,
        r.1 == value,
{
    (String::from_str(key), value)
}

/// A count in the document.
fn count_value(count: Option<i64>) -> (r: Json)
    ensures
        r@ == JsonView::Int(count_or_zero(count)),
{
    match count {
        Some(n) => Json::Int(n),
        None => Json::Int(0),
    }
}

/// The `statistics` member of the document.
fn statistics_json(stats: &Statistics) -> (r: Json)
    ensures
        r@ == statistics_document(stats@),
{
    let time = match &stats.execution_time {
        Some(t) => if crate::text::str_eq(t.number.as_str(), "null") {
            Json::Null
        } else {
            Json::Number(t.number.clone())
        },
        None => Json::Number(String::from_str("0.0")),
    };
    assert(time@ == time_value(stats@.execution_time));
    let mut members: Vec<(String, Json)> = Vec::new();
    members.push(member("nodes_created", count_value(stats.nodes_created)));
    members.push(member("nodes_deleted", count_value(stats.nodes_deleted)));
    members.push(member("relationships_created", count_value(stats.relationships_created)));
    members.push(member("relationships_deleted", count_value(stats.relationships_deleted)));
    members.push(member("properties_set", count_value(stats.properties_set)));
    members.push(member("query_time", time));
    assert(member_views(members@) =~= statistics_document(stats@)->Object_0);
    Json::object(members)
}

/// The JSON document of a result with these statistics and column names.
pub fn json_document(stats: &Statistics, header: &Vec<String>) -> (r: Json)
    ensures
        r@ == outcome_document(stats@, header.deep_view()),
{
    let ghost names = header.deep_view();
    let mut items: Vec<Json> = Vec::new();
    let mut k: usize = 0;
    while k < header.len()
        invariant
            k <= header.len(),
            names == header.deep_view(),
            items.len() == k,
            forall|i: int| 0 <= i < k ==> (#[trigger] items@[i])@ == JsonView::Text(names[i]),
        decreases header.len() - k,
    {
        assert(names[k as int] == header@[k as int]@);
        items.push(Json::Text(header[k].clone()));
        k = k + 1;
    }
    assert(item_views(items@) =~= Seq::new(names.len(), |i: int| JsonView::Text(names[i])));
    let mut members: Vec<(String, Json)> = Vec::new();
    members.push(member("statistics", statistics_json(stats)));
    members.push(member("headers", Json::list(items)));
    members.push(
        member(
            "data",
            Json::Text(String::from_str("Result data serialization would be implemented here")),
        ),
    );
    assert(member_views(members@) =~= outcome_document(stats@, names)->Object_0);
    Json::object(members)
}

/// What JSON mode shows for `document`.
pub fn render_json(document: &Json) -> (r: Result<Vec<Line>, CommandError>)
    ensures
        json_shown(r, document@),
{
    match document.pretty() {
        Ok(text) => {
            let mut lines: Vec<Line> = Vec::new();
            push_line(&mut lines, Line::plain(text.as_str()));
            assert(lines.deep_view() =~= seq![plain_line(text@)]);
            Ok(lines)
        },
        Err(message) => Err(CommandError::RenderFailed { message }),
    }
}

/// The requests that a request for the schema of `graph` stands for: first the query for
/// the node labels, then the query for the relationship types, each an ordinary query on
/// that graph.
pub open spec fn schema_queries(graph: Seq<char>) -> (RequestView, RequestView) {
    (
        RequestView::Execute { graph, query: "CALL db.labels()"@, read_only: false },
        RequestView::Execute { graph, query: "CALL db.relationshipTypes()"@, read_only: false },
    )
}

/// The query that lists the node labels of a graph.
pub fn labels_query() -> (r: &'static str)
    ensures
        r@ == "CALL db.labels()"@,
{
    "CALL db.labels()"
}

/// The query that lists the relationship types of a graph.
pub fn relationship_types_query() -> (r: &'static str)
    ensures
        r@ == "CALL db.relationshipTypes()"@,
{
    "CALL db.relationshipTypes()"
}

impl FalkorCli {
    /// The two requests to make for the schema of `graph_name`, in the order in which they
    /// are made. What is shown for their outcomes is what `show_schema` gives.
    pub fn schema_requests(graph_name: &str) -> (r: (Request, Request))
        ensures
            (r.0@, r.1@) == schema_queries(graph_name@),
    {
        (
            Request::Execute {
                graph: String::from_str(graph_name),
                query: String::from_str(labels_query()),
                read_only: false,
            },
            Request::Execute {
                graph: String::from_str(graph_name),
                query: String::from_str(relationship_types_query()),
                read_only: false,
            },
        )
    }

    /// The request to execute `query` on `graph_name`.
    pub fn execute_query(&self, graph_name: &str, query: &str, readonly: bool) -> (r: Request)
        ensures
            r@ == (RequestView::Execute { graph: graph_name@, query: query@, read_only: readonly }),
    {
        Request::Execute {
            graph: String::from_str(graph_name),
            query: String::from_str(query),
            read_only: readonly,
        }
    }

    /// What to show once the collaborator has answered a request to execute a query:
    /// nothing in quiet mode, else the result as the session displays it. A failure is
    /// `QueryFailed` with the collaborator's message.
    pub fn query_finished(&self, reply: Result<QueryOutcome, String>) -> (r: Result<
        Vec<Line>,
        CommandError,
    >)
        ensures
            match reply {
                Err(message) => r matches Err(e) && e@ == (CommandErrorView::QueryFailed {
                    message: message@,
                }),
                Ok(outcome) => if self.quiet {
                    shown(r) == Ok::<Seq<Seq<SpanView>>, CommandErrorView>(Seq::empty())
                } else {
                    displayed(
                        r,
                        self.raw,
                        self.output_mode,
                        self.quiet,
                        outcome.header.deep_view(),
                        outcome.stats.deep_view(),
                        outcome.time(),
                    )
                },
            },
    {
        match reply {
            Err(message) => Err(CommandError::QueryFailed { message }),
            Ok(outcome) => {
                if self.quiet {
                    let lines: Vec<Line> = Vec::new();
                    assert(lines.deep_view() =~= Seq::<Seq<SpanView>>::empty());
                    Ok(lines)
                } else {
                    self.display_query_result(&outcome)
                }
            },
        }
    }

    /// What the session shows for a result.
    pub fn display_query_result(&self, outcome: &QueryOutcome) -> (r: Result<
        Vec<Line>,
        CommandError,
    >)
        ensures
            displayed(
                r,
                self.raw,
                self.output_mode,
                self.quiet,
                outcome.header.deep_view(),
                outcome.stats.deep_view(),
                outcome.time(),
            ),
    {
        if self.raw {
            let header_debug = debug_list(&outcome.header);
            let stats_debug = debug_list(&outcome.stats);
            return Ok(render_raw(header_debug.as_str(), stats_debug.as_str()));
        }
        match self.output_mode {
            OutputMode::Json => Self::display_as_json(outcome),
            OutputMode::Csv => Ok(Self::display_as_csv(outcome)),
            OutputMode::Table => Ok(self.display_as_table(outcome)),
        }
    }

    /// The table of a result.
    pub fn display_as_table(&self, outcome: &QueryOutcome) -> (r: Vec<Line>)
        ensures
            r.deep_view() == table(
                statistics_of(outcome.stats.deep_view(), outcome.time()),
                outcome.header.deep_view(),
                self.quiet,
            ),
    {
        let stats = outcome.statistics();
        render_table(&stats, &outcome.header, self.quiet)
    }

    /// The JSON output of a result.
    pub fn display_as_json(outcome: &QueryOutcome) -> (r: Result<Vec<Line>, CommandError>)
        ensures
            json_shown(
                r,
                outcome_document(
                    statistics_of(outcome.stats.deep_view(), outcome.time()),
                    outcome.header.deep_view(),
                ),
            ),
    {
        let stats = outcome.statistics();
        let document = json_document(&stats, &outcome.header);
        render_json(&document)
    }

    /// The CSV output of a result.
    pub fn display_as_csv(outcome: &QueryOutcome) -> (r: Vec<Line>)
        ensures
            r.deep_view() == csv(outcome.header.deep_view()),
    {
        render_csv(&outcome.header)
    }

    /// What to show for a graph's schema once the collaborator has answered the two
    /// introspection queries: whether the node labels and whether the relationship types
    /// could be retrieved. The rows of the answers are not shown.
    pub fn show_schema(labels: bool, relationship_types: bool) -> (r: Vec<Line>)
        ensures
            r.deep_view() == schema_shown(labels, relationship_types),
    {
        let mut lines: Vec<Line> = Vec::new();
        push_line(&mut lines, Line::styled("Graph Schema:", Style::Heading));
        if labels {
            push_line(&mut lines, Line::plain("  Node labels:"));
            push_line(
                &mut lines,
                Line::plain("    (Use query 'CALL db.labels()' to see node labels)"),
            );
        } else {
            push_line(&mut lines, Line::plain("    Unable to retrieve node labels"));
        }
        if relationship_types {
            push_line(&mut lines, Line::plain("  Relationship types:"));
            push_line(
                &mut lines,
                Line::plain(
                    "    (Use query 'CALL db.relationshipTypes()' to see relationship types)",
                ),
            );
        } else {
            push_line(&mut lines, Line::plain("    Unable to retrieve relationship types"));
        }
        assert(lines.deep_view() =~= schema_shown(labels, relationship_types));
        lines
    }
}

/// The statistics block of a result for which nothing was reported.
pub open spec fn empty_statistics_block() -> Seq<Seq<SpanView>> {
    seq![
        styled_line("Statistics:"@, Style::Heading),
        plain_line("  Nodes created: 0"@),
        plain_line("  Nodes deleted: 0"@),
        plain_line("  Relationships created: 0"@),
        plain_line("  Relationships deleted: 0"@),
        plain_line("  Properties set: 0"@),
        Seq::empty(),
    ]
}

/// Whether `value` stands under `key` in the object `document`.
pub open spec fn has_member(document: JsonView, key: Seq<char>, value: JsonView) -> bool {
    document matches JsonView::Object(members) && exists|i: int|
        0 <= i < members.len() && #[trigger] members[i] == (key, value)
}

/// A label followed by the notation of 0 is the label with a 0 behind.
proof fn lemma_zero_count(label: Seq<char>, shown: Seq<char>)
    requires
        shown == label + seq!['0'],
    ensures
        count_line(label, None) == plain_line(shown),
{
    assert(signed_decimal(0) =~= seq!['0']);
}

/// Where no statistic was reported, the table shows 0 for each of the five counts and no
/// execution time.
pub proof fn lemma_table_without_statistics(stats: StatisticsView, header: Seq<Seq<char>>)
    requires
        stats.nodes_created is None,
        stats.nodes_deleted is None,
        stats.relationships_created is None,
        stats.relationships_deleted is None,
        stats.properties_set is None,
        stats.execution_time is None,
    ensures
        table(stats, header, false) == empty_statistics_block() + table_body(header),
{
    reveal_strlit("  Nodes created: ");
    reveal_strlit("  Nodes created: 0");
    reveal_strlit("  Nodes deleted: ");
    reveal_strlit("  Nodes deleted: 0");
    reveal_strlit("  Relationships created: ");
    reveal_strlit("  Relationships created: 0");
    reveal_strlit("  Relationships deleted: ");
    reveal_strlit("  Relationships deleted: 0");
    reveal_strlit("  Properties set: ");
    reveal_strlit("  Properties set: 0");
    assert("  Nodes created: 0"@ =~= "  Nodes created: "@ + seq!['0']);
    assert("  Nodes deleted: 0"@ =~= "  Nodes deleted: "@ + seq!['0']);
    assert("  Relationships created: 0"@ =~= "  Relationships created: "@ + seq!['0']);
    assert("  Relationships deleted: 0"@ =~= "  Relationships deleted: "@ + seq!['0']);
    assert("  Properties set: 0"@ =~= "  Properties set: "@ + seq!['0']);
    lemma_zero_count("  Nodes created: "@, "  Nodes created: 0"@);
    lemma_zero_count("  Nodes deleted: "@, "  Nodes deleted: 0"@);
    lemma_zero_count("  Relationships created: "@, "  Relationships created: 0"@);
    lemma_zero_count("  Relationships deleted: "@, "  Relationships deleted: 0"@);
    lemma_zero_count("  Properties set: "@, "  Properties set: 0"@);
    assert(statistics_block(stats) =~= empty_statistics_block());
}

/// The JSON document of every result holds the notice under `data`, and its statistics
/// under `statistics`; where no execution time was reported, these hold the number 0.0
/// under `query_time`.
pub proof fn lemma_document_members(stats: StatisticsView, header: Seq<Seq<char>>)
    ensures
        has_member(outcome_document(stats, header), "data"@, JsonView::Text(json_notice())),
        has_member(outcome_document(stats, header), "statistics"@, statistics_document(stats)),
        stats.execution_time is None ==> has_member(
            statistics_document(stats),
            "query_time"@,
            JsonView::Number("0.0"@),
        ),
{
    let members = outcome_document(stats, header)->Object_0;
    assert(members[2] == ("data"@, JsonView::Text(json_notice())));
    assert(members[0] == ("statistics"@, statistics_document(stats)));
    let inner = statistics_document(stats)->Object_0;
    assert(inner[5] == ("query_time"@, time_value(stats.execution_time)));
}

} // verus!
