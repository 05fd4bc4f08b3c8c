//! Command dispatch: what a subcommand asks of the collaborator, and what is shown when
//! the collaborator has answered.
//!
//! The interactive session and the one-shot command line both end here, so a command means
//! the same on either path.

use vstd::prelude::*;
use crate::cli::{Cli, Commands, CommandsView, option_view};
use crate::client::{FalkorCli, resolved};
use crate::error::{CommandError, CommandErrorView, IndexOperation, SlowlogOperation, view_result};
use crate::output::{Line, SpanView, Style, plain_line, push_line, styled_line};
use crate::text::{decimal, to_uppercase, u64_to_string, uppercase};

verus! {

/// The kind of graph entity that an index covers.
#[derive(Debug, Clone, Copy, PartialEq, Eq, Structural)]
pub enum EntityType {
    Node,
    Edge,
}

/// The kind of an index. Range indices are the only kind that the commands create or drop.
#[derive(Debug, Clone, Copy, PartialEq, Eq, Structural)]
pub enum IndexKind {
    Range,
}

/// The plan-producing calls of the collaborator.
#[derive(Debug, Clone, Copy, PartialEq, Eq, Structural)]
pub enum PlanKind {
    Profile,
    Explain,
}

/// One call to make to the collaborator, with every argument settled.
#[derive(Debug, Clone, PartialEq, Eq)]
pub enum Request {
    /// Execute `query` on `graph`, read-only or not.
    Execute { graph: String, query: String, read_only: bool },
    /// Produce the plan of `query` on `graph`.
    Plan { kind: PlanKind, graph: String, query: String },
    Delete { graph: String },
    /// Run the two introspection queries on `graph`.
    Schema { graph: String },
    Slowlog { graph: String },
    SlowlogReset { graph: String },
    Indices { graph: String },
    /// Create an index on one property. `entity_text` is the entity type as typed.
    CreateIndex {
        graph: String,
        kind: IndexKind,
        entity: EntityType,
        entity_text: String,
        label: String,
        property: String,
    },
    /// Drop the index on one property. `entity_text` is the entity type as typed.
    DropIndex {
        graph: String,
        kind: IndexKind,
        entity: EntityType,
        entity_text: String,
        label: String,
        property: String,
    },
    /// Hand control to the interactive session.
    Interactive,
}

/// The mathematical model of a `Request`.
pub enum RequestView {
    Execute { graph: Seq<char>, query: Seq<char>, read_only: bool },
    Plan { kind: PlanKind, graph: Seq<char>, query: Seq<char> },
    Delete { graph: Seq<char> },
    Schema { graph: Seq<char> },
    Slowlog { graph: Seq<char> },
    SlowlogReset { graph: Seq<char> },
    Indices { graph: Seq<char> },
    CreateIndex {
        graph: Seq<char>,
        kind: IndexKind,
        entity: EntityType,
        entity_text: Seq<char>,
        label: Seq<char>,
        property: Seq<char>,
    },
    DropIndex {
        graph: Seq<char>,
        kind: IndexKind,
        entity: EntityType,
        entity_text: Seq<char>,
        label: Seq<char>,
        property: Seq<char>,
    },
    Interactive,
}

impl View for Request {
    type V = RequestView;

    open spec fn view(&self) -> RequestView {
        match *self {
            Request::Execute { graph, query, read_only } => RequestView::Execute {
                graph: graph@,
                query: query@,
                read_only,
            },
            Request::Plan { kind, graph, query } => RequestView::Plan {
                kind,
                graph: graph@,
                query: query@,
            },
            Request::Delete { graph } => RequestView::Delete { graph: graph@ },
            Request::Schema { graph } => RequestView::Schema { graph: graph@ },
            Request::Slowlog { graph } => RequestView::Slowlog { graph: graph@ },
            Request::SlowlogReset { graph } => RequestView::SlowlogReset { graph: graph@ },
            Request::Indices { graph } => RequestView::Indices { graph: graph@ },
            Request::CreateIndex { graph, kind, entity, entity_text, label, property } => {
                RequestView::CreateIndex {
                    graph: graph@,
                    kind,
                    entity,
                    entity_text: entity_text@,
                    label: label@,
                    property: property@,
                }
            },
            Request::DropIndex { graph, kind, entity, entity_text, label, property } => {
                RequestView::DropIndex {
                    graph: graph@,
                    kind,
                    entity,
                    entity_text: entity_text@,
                    label: label@,
                    property: property@,
                }
            },
            Request::Interactive => RequestView::Interactive,
        }
    }
}

/// The entity type that an upper-cased name stands for: `NODE` for a node, `EDGE` and
/// `RELATIONSHIP` for an edge, nothing else for either.
pub open spec fn entity_type_named(upper: Seq<char>) -> Option<EntityType> {
    if upper == "NODE"@ {
        Some(EntityType::Node)
    } else if upper == "EDGE"@ || upper == "RELATIONSHIP"@ {
        Some(EntityType::Edge)
    } else {
        None
    }
}

/// The entity type that a name stands for, whatever its case.
pub open spec fn entity_type_of(text: Seq<char>) -> Option<EntityType> {
    entity_type_named(uppercase(text))
}

/// What is reported when graphs are to be listed.
pub open spec fn list_advice() -> Seq<char> {
    "Graph listing not directly supported in current falkordb-rs version\nUse Redis CLI: KEYS *"@
}

/// What is reported when a query comes with parameters.
pub open spec fn params_advice() -> Seq<char> {
    "Query parameters are not yet implemented"@
}

/// What is reported when a procedure is to be called.
pub open spec fn call_guidance(procedure: Seq<char>, graph: Seq<char>) -> Seq<char> {
    "Procedure calls not fully implemented yet\nProcedure: "@ + procedure + "\nGraph: "@ + graph
        + "\nUse: graph.call_procedure(\""@ + procedure + "\").execute() in the Rust API"@
}

/// The request that an index command makes: for a range index on the one property, with
/// the entity type settled; or `InvalidEntityType`, before any call.
pub open spec fn index_request(
    create: bool,
    graph: Seq<char>,
    entity_type: Seq<char>,
    label: Seq<char>,
    property: Seq<char>,
) -> Result<RequestView, CommandErrorView> {
    match entity_type_of(entity_type) {
        Some(entity) => Ok(
            if create {
                RequestView::CreateIndex {
                    graph,
                    kind: IndexKind::Range,
                    entity,
                    entity_text: entity_type,
                    label,
                    property,
                }
            } else {
                RequestView::DropIndex {
                    graph,
                    kind: IndexKind::Range,
                    entity,
                    entity_text: entity_type,
                    label,
                    property,
                }
            },
        ),
        None => Err(CommandErrorView::InvalidEntityType),
    }
}

/// The request that a query command makes, or the error it fails with.
pub open spec fn query_request(
    graph: Seq<char>,
    query: Seq<char>,
    params: Option<Seq<char>>,
    read_only: bool,
) -> Result<RequestView, CommandErrorView> {
    if params is Some {
        Err(CommandErrorView::UnimplementedFeature { message: params_advice() })
    } else {
        Ok(RequestView::Execute { graph, query, read_only })
    }
}

/// The dispatch table: the request that each subcommand makes of the collaborator, or the
/// error it fails with before any call.
pub open spec fn dispatch(command: CommandsView) -> Result<RequestView, CommandErrorView> {
    match command {
        CommandsView::Query { graph, query, params } => query_request(graph, query, params, false),
        CommandsView::RoQuery { graph, query, params } => query_request(
            graph,
            query,
            params,
            true,
        ),
        CommandsView::Profile { graph, query } => Ok(
            RequestView::Plan { kind: PlanKind::Profile, graph, query },
        ),
        CommandsView::Explain { graph, query } => Ok(
            RequestView::Plan { kind: PlanKind::Explain, graph, query },
        ),
        CommandsView::Delete { graph } => Ok(RequestView::Delete { graph }),
        CommandsView::List => Err(CommandErrorView::UnimplementedFeature { message: list_advice() }),
        CommandsView::Schema { graph } => Ok(RequestView::Schema { graph }),
        CommandsView::Slowlog { graph } => Ok(RequestView::Slowlog { graph }),
        CommandsView::SlowlogReset { graph } => Ok(RequestView::SlowlogReset { graph }),
        CommandsView::Indices { graph } => Ok(RequestView::Indices { graph }),
        CommandsView::CreateIndex { graph, entity_type, label, property } => index_request(
            true,
            graph,
            entity_type,
            label,
            property,
        ),
        CommandsView::DropIndex { graph, entity_type, label, property } => index_request(
            false,
            graph,
            entity_type,
            label,
            property,
        ),
        CommandsView::Call { graph, procedure, args } => Err(
            CommandErrorView::UnimplementedFeature { message: call_guidance(procedure, graph) },
        ),
        CommandsView::Interactive => Ok(RequestView::Interactive),
    }
}

/// The model of what a command shows, or of the error it fails with.
pub open spec fn shown(r: Result<Vec<Line>, CommandError>) -> Result<
    Seq<Seq<SpanView>>,
    CommandErrorView,
> {
    match r {
        Ok(lines) => Ok(lines.deep_view()),
        Err(e) => Err(e@),
    }
}

/// The model of a collaborator's answer that lists items, or of its message of failure.
pub open spec fn listed(reply: Result<Vec<String>, String>) -> Result<Seq<Seq<char>>, Seq<char>> {
    match reply {
        Ok(items) => Ok(items.deep_view()),
        Err(message) => Err(message@),
    }
}

/// The model of a collaborator's answer that holds nothing, or of its message of failure.
pub open spec fn done(reply: Result<(), String>) -> Option<Seq<char>> {
    match reply {
        Ok(_) => None,
        Err(message) => Some(message@),
    }
}

/// The heading above a plan.
pub open spec fn plan_heading(kind: PlanKind) -> Seq<char> {
    match kind {
        PlanKind::Profile => "Execution Plan:"@,
        PlanKind::Explain => "Query Explanation:"@,
    }
}

/// What is shown for a plan: its heading, then the plan as the collaborator gave it. A
/// failure is `ProfileFailed` or `ExplainFailed` with the collaborator's message.
pub open spec fn plan_shown(kind: PlanKind, reply: Result<Seq<char>, Seq<char>>) -> Result<
    Seq<Seq<SpanView>>,
    CommandErrorView,
> {
    match reply {
        Ok(plan) => Ok(seq![styled_line(plan_heading(kind), Style::Heading), plain_line(plan)]),
        Err(message) => Err(
            match kind {
                PlanKind::Profile => CommandErrorView::ProfileFailed { message },
                PlanKind::Explain => CommandErrorView::ExplainFailed { message },
            },
        ),
    }
}

/// What is shown when a graph was deleted, or `DeleteFailed` with the collaborator's
/// message.
pub open spec fn delete_shown(graph: Seq<char>, failure: Option<Seq<char>>) -> Result<
    Seq<Seq<SpanView>>,
    CommandErrorView,
> {
    match failure {
        None => Ok(seq![plain_line("Graph '"@ + graph + "' deleted successfully"@)]),
        Some(message) => Err(CommandErrorView::DeleteFailed { message }),
    }
}

/// The line of the `i`-th entry of the slow-query log, counted from 0: its ordinal, counted
/// from 1, a full stop, a blank and the entry.
pub open spec fn slowlog_line(entries: Seq<Seq<char>>, i: int) -> Seq<SpanView> {
    plain_line(decimal((i + 1) as nat) + ". "@ + entries[i])
}

/// What is shown for the slow-query log: a heading, then one numbered line for each
/// entry, in order. A failure is `SlowlogFailed` with the collaborator's message.
pub open spec fn slowlog_shown(reply: Result<Seq<Seq<char>>, Seq<char>>) -> Result<
    Seq<Seq<SpanView>>,
    CommandErrorView,
> {
    match reply {
        Ok(entries) => Ok(
            seq![styled_line("Slowlog Entries:"@, Style::Heading)] + Seq::new(
                entries.len(),
                |i: int| slowlog_line(entries, i),
            ),
        ),
        Err(message) => Err(
            CommandErrorView::SlowlogFailed { operation: SlowlogOperation::Read, message },
        ),
    }
}

/// What is shown when the slow-query log was reset, or `SlowlogFailed` with the
/// collaborator's message.
pub open spec fn slowlog_reset_shown(failure: Option<Seq<char>>) -> Result<
    Seq<Seq<SpanView>>,
    CommandErrorView,
> {
    match failure {
        None => Ok(seq![plain_line("Slowlog reset successfully"@)]),
        Some(message) => Err(
            CommandErrorView::SlowlogFailed { operation: SlowlogOperation::Reset, message },
        ),
    }
}

/// What is shown for the indices: a heading, then one indented line for each index, in
/// order and without a number. A failure is `IndexOperationFailed` with the collaborator's
/// message.
pub open spec fn indices_shown(reply: Result<Seq<Seq<char>>, Seq<char>>) -> Result<
    Seq<Seq<SpanView>>,
    CommandErrorView,
> {
    match reply {
        Ok(indices) => Ok(
            seq![styled_line("Indices:"@, Style::Heading)] + Seq::new(
                indices.len(),
                |i: int| plain_line("  "@ + indices[i]),
            ),
        ),
        Err(message) => Err(
            CommandErrorView::IndexOperationFailed { operation: IndexOperation::List, message },
        ),
    }
}

/// The words that open the report of an index that was created or dropped.
pub open spec fn index_done_prefix(create: bool) -> Seq<char> {
    if create {
        "Index created successfully on "@
    } else {
        "Index dropped successfully on "@
    }
}

/// What is shown when an index was created or dropped: the entity type as it was typed,
/// the label and the property. A failure is `IndexOperationFailed` with the collaborator's
/// message.
pub open spec fn index_shown(
    create: bool,
    entity_text: Seq<char>,
    label: Seq<char>,
    property: Seq<char>,
    failure: Option<Seq<char>>,
) -> Result<Seq<Seq<SpanView>>, CommandErrorView> {
    match failure {
        None => Ok(
            seq![
                plain_line(
                    index_done_prefix(create) + entity_text + ":"@ + label + " for "@ + property,
                ),
            ],
        ),
        Some(message) => Err(
            CommandErrorView::IndexOperationFailed {
                operation: if create {
                    IndexOperation::Create
                } else {
                    IndexOperation::Drop
                },
                message,
            },
        ),
    }
}

/// What is reported when commands are to be read from a file.
pub open spec fn file_advice() -> Seq<char> {
    "File mode not yet implemented"@
}

/// What a command line asks for at startup, with `current` the graph that it selects, if
/// any: the query after `--eval`, not read-only, on that graph; else, with a file to read,
/// `UnimplementedFeature`; else what its subcommand asks for; and without a subcommand the
/// interactive session.
pub open spec fn started(
    current: Option<Seq<char>>,
    eval: Option<Seq<char>>,
    file: Option<Seq<char>>,
    command: Option<CommandsView>,
) -> Result<RequestView, CommandErrorView> {
    match eval {
        Some(query) => match resolved(None, current) {
            Ok(graph) => Ok(RequestView::Execute { graph, query, read_only: false }),
            Err(e) => Err(e),
        },
        None => match file {
            Some(_) => Err(CommandErrorView::UnimplementedFeature { message: file_advice() }),
            None => match command {
                Some(command) => dispatch(command),
                None => Ok(RequestView::Interactive),
            },
        },
    }
}

/// The entity type that an upper-cased name stands for.
pub fn entity_type_from_upper(upper: &str) -> (r: Option<EntityType>)
    ensures
        r == entity_type_named(upper@),
{
    if crate::text::str_eq(upper, "NODE") {
        Some(EntityType::Node)
    } else if crate::text::str_eq(upper, "EDGE") || crate::text::str_eq(upper, "RELATIONSHIP") {
        Some(EntityType::Edge)
    } else {
        None
    }
}

/// The entity type that `text` names, whatever its case, or `InvalidEntityType`.
pub fn parse_entity_type(text: &str) -> (r: Result<EntityType, CommandError>)
    ensures
        match entity_type_of(text@) {
            Some(entity) => r == Ok::<EntityType, CommandError>(entity),
            None => r matches Err(e) && e@ == CommandErrorView::InvalidEntityType,
        },
{
    let upper = to_uppercase(text);
    match entity_type_from_upper(upper.as_str()) {
        Some(entity) => Ok(entity),
        None => Err(CommandError::InvalidEntityType),
    }
}

/// The text of `call_guidance`.
fn call_guidance_text(procedure: &str, graph: &str) -> (r: String)
    ensures
        r@ == call_guidance(procedure@, graph@),
{
    let mut r = String::from_str("Procedure calls not fully implemented yet\nProcedure: ");
    r.append(procedure);
    r.append("\nGraph: ");
    r.append(graph);
    r.append("\nUse: graph.call_procedure(\"");
    r.append(procedure);
    r.append("\").execute() in the Rust API");
    r
}

impl FalkorCli {
    /// The request that a query makes: parameters are not forwarded, so a query that comes
    /// with any is refused.
    fn query_command(graph: String, query: String, params: Option<String>, read_only: bool) -> (r:
        Result<Request, CommandError>)
        ensures
            view_result(r) == query_request(
                graph@,
                query@,
                crate::cli::option_text(params),
                read_only,
            ),
    {
        match params {
            Some(_) => Err(
                CommandError::UnimplementedFeature {
                    message: String::from_str("Query parameters are not yet implemented"),
                },
            ),
            None => Ok(Request::Execute { graph, query, read_only }),
        }
    }

    /// The request that an index command makes once its entity type is settled.
    fn index_command(
        create: bool,
        graph: String,
        entity_type: String,
        label: String,
        property: String,
    ) -> (r: Result<Request, CommandError>)
        ensures
            view_result(r) == index_request(create, graph@, entity_type@, label@, property@),
    {
        match parse_entity_type(entity_type.as_str()) {
            Ok(entity) => {
                if create {
                    Ok(
                        Request::CreateIndex {
                            graph,
                            kind: IndexKind::Range,
                            entity,
                            entity_text: entity_type,
                            label,
                            property,
                        },
                    )
                } else {
                    Ok(
                        Request::DropIndex {
                            graph,
                            kind: IndexKind::Range,
                            entity,
                            entity_text: entity_type,
                            label,
                            property,
                        },
                    )
                }
            },
            Err(e) => Err(e),
        }
    }

    /// Starts the session that the command line `cli` describes: selects its graph, if it
    /// names one, and says what it asks for first.
    pub fn start(&mut self, cli: Cli) -> (r: Result<Request, CommandError>)
        ensures
            final(self).graph() == (match cli.graph {
                Some(graph) => Some(graph@),
                None => old(self).graph(),
            }),
            final(self).connection == old(self).connection,
            final(self).output_mode == old(self).output_mode,
            final(self).quiet == old(self).quiet,
            final(self).raw == old(self).raw,
            view_result(r) == started(
                final(self).graph(),
                option_view(cli.eval),
                option_view(cli.file),
                option_view(cli.command),
            ),
    {
        let Cli { graph, eval, file, command, .. } = cli;
        match graph {
            Some(graph) => {
                self.set_graph(graph);
            },
            None => {},
        }
        match eval {
            Some(query) => match self.get_graph_name(None) {
                Ok(graph) => Ok(Request::Execute { graph, query, read_only: false }),
                Err(e) => Err(e),
            },
            None => match file {
                Some(_) => Err(
                    CommandError::UnimplementedFeature {
                        message: String::from_str("File mode not yet implemented"),
                    },
                ),
                None => match command {
                    Some(command) => self.handle_command(command),
                    None => Ok(Request::Interactive),
                },
            },
        }
    }

    /// Looks `command` up in the dispatch table: the request to make of the collaborator, or
    /// the error that the command fails with before any call is made.
    pub fn handle_command(&self, command: Commands) -> (r: Result<Request, CommandError>)
        ensures
            view_result(r) == dispatch(command@),
    {
        match command {
            Commands::Query { graph, query, params } => Self::query_command(
                graph,
                query,
                params,
                false,
            ),
            Commands::RoQuery { graph, query, params } => Self::query_command(
                graph,
                query,
                params,
                true,
            ),
            Commands::Profile { graph, query } => Ok(
                Request::Plan { kind: PlanKind::Profile, graph, query },
            ),
            Commands::Explain { graph, query } => Ok(
                Request::Plan { kind: PlanKind::Explain, graph, query },
            ),
            Commands::Delete { graph } => Ok(Request::Delete { graph }),
            Commands::List => Self::list_graphs(),
            Commands::Schema { graph } => Ok(Request::Schema { graph }),
            Commands::Slowlog { graph } => Ok(Request::Slowlog { graph }),
            Commands::SlowlogReset { graph } => Ok(Request::SlowlogReset { graph }),
            Commands::Indices { graph } => Ok(Request::Indices { graph }),
            Commands::CreateIndex { graph, entity_type, label, property } => Self::index_command(
                true,
                graph,
                entity_type,
                label,
                property,
            ),
            Commands::DropIndex { graph, entity_type, label, property } => Self::index_command(
                false,
                graph,
                entity_type,
                label,
                property,
            ),
            Commands::Call { graph, procedure, args: _ } => Err(
                CommandError::UnimplementedFeature {
                    message: call_guidance_text(procedure.as_str(), graph.as_str()),
                },
            ),
            Commands::Interactive => Ok(Request::Interactive),
        }
    }

    /// What to show once the collaborator has answered a request for a plan. `reply` holds
    /// the plan in its debug form, or the collaborator's message of failure.
    pub fn plan_finished(kind: PlanKind, reply: Result<String, String>) -> (r: Result<
        Vec<Line>,
        CommandError,
    >)
        ensures
            shown(r) == plan_shown(kind, view_result(reply)),
    {
        match reply {
            Ok(plan) => {
                let mut lines: Vec<Line> = Vec::new();
                let heading = match kind {
                    PlanKind::Profile => "Execution Plan:",
                    PlanKind::Explain => "Query Explanation:",
                };
                push_line(&mut lines, Line::styled(heading, Style::Heading));
                push_line(&mut lines, Line::plain(plan.as_str()));
                assert(lines.deep_view() =~= seq![
                    styled_line(plan_heading(kind), Style::Heading),
                    plain_line(plan@),
                ]);
                Ok(lines)
            },
            Err(message) => Err(
                match kind {
                    PlanKind::Profile => CommandError::ProfileFailed { message },
                    PlanKind::Explain => CommandError::ExplainFailed { message },
                },
            ),
        }
    }

    /// What to show once the collaborator has answered the request to delete `graph`.
    pub fn delete_finished(graph: &str, reply: Result<(), String>) -> (r: Result<
        Vec<Line>,
        CommandError,
    >)
        ensures
            shown(r) == delete_shown(graph@, done(reply)),
    {
        match reply {
            Ok(_) => {
                let mut text = String::from_str("Graph '");
                text.append(graph);
                text.append("' deleted successfully");
                let mut lines: Vec<Line> = Vec::new();
                push_line(&mut lines, Line::plain(text.as_str()));
                assert(lines.deep_view() =~= seq![
                    plain_line("Graph '"@ + graph@ + "' deleted successfully"@),
                ]);
                Ok(lines)
            },
            Err(message) => Err(CommandError::DeleteFailed { message }),
        }
    }

    /// What to show once the collaborator has answered the request for the slow-query log.
    /// `reply` holds the entries in their debug form, or the collaborator's message of
    /// failure.
    pub fn slowlog_finished(reply: Result<Vec<String>, String>) -> (r: Result<
        Vec<Line>,
        CommandError,
    >)
        ensures
            shown(r) == slowlog_shown(listed(reply)),
    {
        match reply {
            Ok(entries) => {
                let ghost all = entries.deep_view();
                let mut lines: Vec<Line> = Vec::new();
                push_line(&mut lines, Line::styled("Slowlog Entries:", Style::Heading));
                let mut i: usize = 0;
                while i < entries.len()
                    invariant
                        i <= entries.len(),
                        all == entries.deep_view(),
                        lines.deep_view() == seq![
                            styled_line("Slowlog Entries:"@, Style::Heading),
                        ] + Seq::new(i as nat, |k: int| slowlog_line(all, k)),
                    decreases entries.len() - i,
                {
                    let mut text = u64_to_string((i + 1) as u64);
                    text.append(". ");
                    text.append(entries[i].as_str());
                    push_line(&mut lines, Line::plain(text.as_str()));
                    assert(all[i as int] == entries[i as int]@);
                    assert(lines.deep_view() =~= seq![
                        styled_line("Slowlog Entries:"@, Style::Heading),
                    ] + Seq::new((i + 1) as nat, |k: int| slowlog_line(all, k)));
                    i = i + 1;
                }
                Ok(lines)
            },
            Err(message) => Err(
                CommandError::SlowlogFailed { operation: SlowlogOperation::Read, message },
            ),
        }
    }

    /// What to show once the collaborator has answered the request to reset the slow-query
    /// log.
    pub fn slowlog_reset_finished(reply: Result<(), String>) -> (r: Result<
        Vec<Line>,
        CommandError,
    >)
        ensures
            shown(r) == slowlog_reset_shown(done(reply)),
    {
        match reply {
            Ok(_) => {
                let mut lines: Vec<Line> = Vec::new();
                push_line(&mut lines, Line::plain("Slowlog reset successfully"));
                assert(lines.deep_view() =~= seq![plain_line("Slowlog reset successfully"@)]);
                Ok(lines)
            },
            Err(message) => Err(
                CommandError::SlowlogFailed { operation: SlowlogOperation::Reset, message },
            ),
        }
    }

    /// What to show once the collaborator has answered the request for the indices.
    /// `reply` holds the index descriptors in their debug form, or the collaborator's
    /// message of failure.
    pub fn indices_finished(reply: Result<Vec<String>, String>) -> (r: Result<
        Vec<Line>,
        CommandError,
    >)
        ensures
            shown(r) == indices_shown(listed(reply)),
    {
        match reply {
            Ok(indices) => {
                let ghost all = indices.deep_view();
                let mut lines: Vec<Line> = Vec::new();
                push_line(&mut lines, Line::styled("Indices:", Style::Heading));
                let mut i: usize = 0;
                while i < indices.len()
                    invariant
                        i <= indices.len(),
                        all == indices.deep_view(),
                        lines.deep_view() == seq![styled_line("Indices:"@, Style::Heading)]
                            + Seq::new(i as nat, |k: int| plain_line("  "@ + all[k])),
                    decreases indices.len() - i,
                {
                    let mut text = String::from_str("  ");
                    text.append(indices[i].as_str());
                    push_line(&mut lines, Line::plain(text.as_str()));
                    assert(all[i as int] == indices[i as int]@);
                    assert(lines.deep_view() =~= seq![styled_line("Indices:"@, Style::Heading)]
                        + Seq::new((i + 1) as nat, |k: int| plain_line("  "@ + all[k])));
                    i = i + 1;
                }
                Ok(lines)
            },
            Err(message) => Err(
                CommandError::IndexOperationFailed { operation: IndexOperation::List, message },
            ),
        }
    }

    /// What to show once the collaborator has answered the request to create (`create`) or
    /// drop an index. `entity_text` is the entity type as it was typed.
    pub fn index_finished(
        create: bool,
        entity_text: &str,
        label: &str,
        property: &str,
        reply: Result<(), String>,
    ) -> (r: Result<Vec<Line>, CommandError>)
        ensures
            shown(r) == index_shown(create, entity_text@, label@, property@, done(reply)),
    {
        match reply {
            Ok(_) => {
                let mut text = if create {
                    String::from_str("Index created successfully on ")
                } else {
                    String::from_str("Index dropped successfully on ")
                };
                text.append(entity_text);
                text.append(":");
                text.append(label);
                text.append(" for ");
                text.append(property);
                let mut lines: Vec<Line> = Vec::new();
                push_line(&mut lines, Line::plain(text.as_str()));
                assert(lines.deep_view() =~= seq![
                    plain_line(
                        index_done_prefix(create) + entity_text@ + ":"@ + label@ + " for "@
                            + property@,
                    ),
                ]);
                Ok(lines)
            },
            Err(message) => Err(
                CommandError::IndexOperationFailed {
                    operation: if create {
                        IndexOperation::Create
                    } else {
                        IndexOperation::Drop
                    },
                    message,
                },
            ),
        }
    }
}

} // verus!
