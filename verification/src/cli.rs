//! The command-line surface: the global options and the subcommands.

use vstd::prelude::*;

verus! {

/// What the command line holds: the connection parameters, the session settings and, where
/// one is given, the subcommand.
#[derive(Debug, Clone, PartialEq, Eq)]
pub struct Cli {
    /// Server hostname.
    pub hostname: String,
    /// Server port.
    pub port: u16,
    /// Database number.
    pub database: u8,
    /// Username for authentication.
    pub username: Option<String>,
    /// Connection password.
    pub auth: Option<String>,
    /// Graph name to operate on.
    pub graph: Option<String>,
    /// A query to execute before leaving.
    pub eval: Option<String>,
    /// A file to read commands from.
    pub file: Option<String>,
    /// Output format: `table`, `json` or `csv`.
    pub format: String,
    /// Suppress what is not essential.
    pub quiet: bool,
    /// Show results in their raw form.
    pub raw: bool,
    pub command: Option<Commands>,
}

/// The subcommands.
#[derive(Debug, Clone, PartialEq, Eq)]
pub enum Commands {
    /// Execute a Cypher query on a graph.
    Query { graph: String, query: String, params: Option<String> },
    /// Execute a read-only Cypher query.
    RoQuery { graph: String, query: String, params: Option<String> },
    /// Profile a query execution.
    Profile { graph: String, query: String },
    /// Explain a query execution plan.
    Explain { graph: String, query: String },
    /// Delete a graph.
    Delete { graph: String },
    /// List all graphs.
    List,
    /// Show a graph's schema.
    Schema { graph: String },
    /// Show the slow-query log.
    Slowlog { graph: String },
    /// Reset the slow-query log.
    SlowlogReset { graph: String },
    /// Show the indices.
    Indices { graph: String },
    /// Create an index.
    CreateIndex { graph: String, entity_type: String, label: String, property: String },
    /// Drop an index.
    DropIndex { graph: String, entity_type: String, label: String, property: String },
    /// Call a procedure.
    Call { graph: String, procedure: String, args: Option<String> },
    /// Interactive mode.
    Interactive,
}

/// The view of an optional text.
pub open spec fn option_text(t: Option<String>) -> Option<Seq<char>> {
    match t {
        Some(s) => Some(s@),
        None => None,
    }
}

/// The model of an optional value that has a model.
pub open spec fn option_view<T: View>(t: Option<T>) -> Option<T::V> {
    match t {
        Some(x) => Some(x@),
        None => None,
    }
}

/// The mathematical model of a subcommand.
pub enum CommandsView {
    Query { graph: Seq<char>, query: Seq<char>, params: Option<Seq<char>> },
    RoQuery { graph: Seq<char>, query: Seq<char>, params: Option<Seq<char>> },
    Profile { graph: Seq<char>, query: Seq<char> },
    Explain { graph: Seq<char>, query: Seq<char> },
    Delete { graph: Seq<char> },
    List,
    Schema { graph: Seq<char> },
    Slowlog { graph: Seq<char> },
    SlowlogReset { graph: Seq<char> },
    Indices { graph: Seq<char> },
    CreateIndex {
        graph: Seq<char>,
        entity_type: Seq<char>,
        label: Seq<char>,
        property: Seq<char>,
    },
    DropIndex { graph: Seq<char>, entity_type: Seq<char>, label: Seq<char>, property: Seq<char> },
    Call { graph: Seq<char>, procedure: Seq<char>, args: Option<Seq<char>> },
    Interactive,
}

impl View for Commands {
    type V = CommandsView;

    open spec fn view(&self) -> CommandsView {
        match *self {
            Commands::Query { graph, query, params } => CommandsView::Query {
                graph: graph@,
                query: query@,
                params: option_text(params),
            },
            Commands::RoQuery { graph, query, params } => CommandsView::RoQuery {
                graph: graph@,
                query: query@,
                params: option_text(params),
            },
            Commands::Profile { graph, query } => CommandsView::Profile {
                graph: graph@,
                query: query@,
            },
            Commands::Explain { graph, query } => CommandsView::Explain {
                graph: graph@,
                query: query@,
            },
            Commands::Delete { graph } => CommandsView::Delete { graph: graph@ },
            Commands::List => CommandsView::List,
            Commands::Schema { graph } => CommandsView::Schema { graph: graph@ },
            Commands::Slowlog { graph } => CommandsView::Slowlog { graph: graph@ },
            Commands::SlowlogReset { graph } => CommandsView::SlowlogReset { graph: graph@ },
            Commands::Indices { graph } => CommandsView::Indices { graph: graph@ },
            Commands::CreateIndex { graph, entity_type, label, property } => {
                CommandsView::CreateIndex {
                    graph: graph@,
                    entity_type: entity_type@,
                    label: label@,
                    property: property@,
                }
            },
            Commands::DropIndex { graph, entity_type, label, property } => {
                CommandsView::DropIndex {
                    graph: graph@,
                    entity_type: entity_type@,
                    label: label@,
                    property: property@,
                }
            },
            Commands::Call { graph, procedure, args } => CommandsView::Call {
                graph: graph@,
                procedure: procedure@,
                args: option_text(args),
            },
            Commands::Interactive => CommandsView::Interactive,
        }
    }
}

/// The names of the subcommands on the command line, in the order of `Commands`.
pub open spec fn subcommand_names() -> Seq<Seq<char>> {
    seq![
        "query"@,
        "ro-query"@,
        "profile"@,
        "explain"@,
        "delete"@,
        "list"@,
        "schema"@,
        "slowlog"@,
        "slowlog-reset"@,
        "indices"@,
        "create-index"@,
        "drop-index"@,
        "call"@,
        "interactive"@,
    ]
}

impl Commands {
    /// The names of the subcommands on the command line, in the order of the variants.
    pub fn names() -> (r: Vec<&'static str>)
        ensures
            r.deep_view() == subcommand_names(),
    {
        let mut r: Vec<&'static str> = Vec::new();
        r.push("query");
        r.push("ro-query");
        r.push("profile");
        r.push("explain");
        r.push("delete");
        r.push("list");
        r.push("schema");
        r.push("slowlog");
        r.push("slowlog-reset");
        r.push("indices");
        r.push("create-index");
        r.push("drop-index");
        r.push("call");
        r.push("interactive");
        assert(r.deep_view() =~= subcommand_names());
        r
    }
}

/// An outside type: a command definition of `clap`.
#[verifier::external_type_specification]
#[verifier::external_body]
pub struct ExCommand(clap::Command);

/// An outside type: what `clap` has read from a command line.
#[verifier::external_type_specification]
#[verifier::external_body]
pub struct ExArgMatches(clap::ArgMatches);

/// Why a command line gave no `Cli`.
#[derive(Debug, Clone, PartialEq, Eq)]
pub enum CliError {
    /// `clap` refused the command line, or was asked for the help or the version. `message`
    /// is what it prints; `failure` says whether that is an error.
    Usage { message: String, failure: bool },
    /// A value that is always there was not among what `clap` had read.
    MissingArgument { name: &'static str },
    /// The subcommand that `clap` had read is none of this program.
    UnknownSubcommand { name: String },
}

/// What `clap` has read for a subcommand, as plain values.
#[derive(Debug, Clone, PartialEq, Eq)]
pub struct RawCommand {
    pub name: String,
    pub graph: Option<String>,
    pub query: Option<String>,
    pub params: Option<String>,
    pub entity_type: Option<String>,
    pub label: Option<String>,
    pub property: Option<String>,
    pub procedure: Option<String>,
    pub args: Option<String>,
}

/// What `clap` has read from a command line, as plain values.
#[derive(Debug, Clone, PartialEq, Eq)]
pub struct RawCli {
    pub hostname: Option<String>,
    pub port: Option<u16>,
    pub database: Option<u8>,
    pub username: Option<String>,
    pub auth: Option<String>,
    pub graph: Option<String>,
    pub eval: Option<String>,
    pub file: Option<String>,
    pub format: Option<String>,
    pub quiet: bool,
    pub raw: bool,
    pub command: Option<RawCommand>,
}

/// How the value of a global option is read.
#[derive(Debug, Clone, Copy, PartialEq, Eq, Structural)]
pub enum OptionKind {
    /// Any text.
    Text,
    /// A port: a number from 0 to 65535.
    Port,
    /// A database number: a number from 0 to 255.
    Database,
    /// No value: the option is set by being there.
    Flag,
}

/// One global option of the command line. Its long name is `name`.
#[derive(Debug, Clone, Copy, PartialEq, Eq)]
pub struct OptionSpec {
    pub name: &'static str,
    pub short: Option<char>,
    pub default: Option<&'static str>,
    pub kind: OptionKind,
    pub help: &'static str,
}

/// The mathematical model of a global option: everything but its help text.
pub struct OptionSpecView {
    pub name: Seq<char>,
    pub short: Option<char>,
    pub default: Option<Seq<char>>,
    pub kind: OptionKind,
}

impl DeepView for OptionSpec {
    type V = OptionSpecView;

    open spec fn deep_view(&self) -> OptionSpecView {
        OptionSpecView {
            name: self.name@,
            short: self.short,
            default: match self.default {
                Some(text) => Some(text@),
                None => None,
            },
            kind: self.kind,
        }
    }
}

/// A global option that takes a text and has no default.
pub open spec fn text_option(name: Seq<char>, short: Option<char>) -> OptionSpecView {
    OptionSpecView { name, short, default: None, kind: OptionKind::Text }
}

/// The global options: the host name (`localhost` unless given), the port (6379), the
/// database (0), the username, the password, the graph, the query to evaluate, the file to
/// read, the output format (`table`), and the flags for quiet and for raw output.
pub open spec fn global_options() -> Seq<OptionSpecView> {
    seq![
        OptionSpecView {
            name: "hostname"@,
            short: None,
            default: Some("localhost"@),
            kind: OptionKind::Text,
        },
        OptionSpecView {
            name: "port"@,
            short: Some('p'),
            default: Some("6379"@),
            kind: OptionKind::Port,
        },
        OptionSpecView {
            name: "database"@,
            short: Some('n'),
            default: Some("0"@),
            kind: OptionKind::Database,
        },
        text_option("username"@, Some('u')),
        text_option("auth"@, Some('a')),
        text_option("graph"@, Some('g')),
        text_option("eval"@, None),
        text_option("file"@, Some('f')),
        OptionSpecView {
            name: "format"@,
            short: None,
            default: Some("table"@),
            kind: OptionKind::Text,
        },
        OptionSpecView { name: "quiet"@, short: Some('q'), default: None, kind: OptionKind::Flag },
        OptionSpecView { name: "raw"@, short: Some('r'), default: None, kind: OptionKind::Flag },
    ]
}

/// The argument that stands for a global option: its long name is its identifier, and it
/// need not be given.
pub open spec fn option_argument(spec: OptionSpecView) -> ArgumentView {
    ArgumentView {
        id: spec.name,
        long: Some(spec.name),
        short: spec.short,
        default: spec.default,
        required: false,
        kind: spec.kind,
    }
}

/// The arguments that stand for the global options, in their order.
pub open spec fn option_arguments() -> Seq<ArgumentView> {
    Seq::new(global_options().len(), |i: int| option_argument(global_options()[i]))
}

/// A positional argument: it has neither names nor a default, holds a text, and must be
/// given.
pub open spec fn positional_argument(id: Seq<char>) -> ArgumentView {
    ArgumentView {
        id,
        long: None,
        short: None,
        default: None,
        required: true,
        kind: OptionKind::Text,
    }
}

/// The arguments of a subcommand that takes a graph and nothing else.
pub open spec fn graph_arguments() -> Seq<ArgumentView> {
    seq![positional_argument("graph"@)]
}

/// The arguments of a subcommand that takes a graph and a query.
pub open spec fn query_arguments() -> Seq<ArgumentView> {
    seq![positional_argument("graph"@), positional_argument("query"@)]
}

/// The arguments of a subcommand that takes a graph, a query and, as the option `--params`
/// or `-p`, the parameters of the query.
pub open spec fn query_arguments_with_params() -> Seq<ArgumentView> {
    query_arguments().push(option_argument(text_option("params"@, Some('p'))))
}

/// The arguments of a subcommand that takes a graph, an entity type, a label and a
/// property.
pub open spec fn index_arguments() -> Seq<ArgumentView> {
    seq![
        positional_argument("graph"@),
        positional_argument("entity_type"@),
        positional_argument("label"@),
        positional_argument("property"@),
    ]
}

/// The arguments of the subcommand that calls a procedure: a graph, the procedure and, as
/// the option `--args` or `-a`, its arguments.
pub open spec fn call_arguments() -> Seq<ArgumentView> {
    seq![
        positional_argument("graph"@),
        positional_argument("procedure"@),
        option_argument(text_option("args"@, Some('a'))),
    ]
}

/// The subcommands of the command line, each with its name and its arguments, in the order
/// of `subcommand_names`.
pub open spec fn subcommand_definitions() -> Seq<(Seq<char>, Seq<ArgumentView>)> {
    seq![
        ("query"@, query_arguments_with_params()),
        ("ro-query"@, query_arguments_with_params()),
        ("profile"@, query_arguments()),
        ("explain"@, query_arguments()),
        ("delete"@, graph_arguments()),
        ("list"@, Seq::empty()),
        ("schema"@, graph_arguments()),
        ("slowlog"@, graph_arguments()),
        ("slowlog-reset"@, graph_arguments()),
        ("indices"@, graph_arguments()),
        ("create-index"@, index_arguments()),
        ("drop-index"@, index_arguments()),
        ("call"@, call_arguments()),
        ("interactive"@, Seq::empty()),
    ]
}

/// Whether `raw` holds what was read for the subcommand `name`: each text under the
/// identifier of its argument.
pub open spec fn command_read(raw: RawCommand, name: Seq<char>, values: Map<Seq<char>, ValueView>)
    -> bool {
    &&& raw.name@ == name
    &&& option_view(raw.graph) == text_at(values, "graph"@)
    &&& option_view(raw.query) == text_at(values, "query"@)
    &&& option_view(raw.params) == text_at(values, "params"@)
    &&& option_view(raw.entity_type) == text_at(values, "entity_type"@)
    &&& option_view(raw.label) == text_at(values, "label"@)
    &&& option_view(raw.property) == text_at(values, "property"@)
    &&& option_view(raw.procedure) == text_at(values, "procedure"@)
    &&& option_view(raw.args) == text_at(values, "args"@)
}

/// A flag that was not read counts as not set.
pub open spec fn flag_set(values: Map<Seq<char>, ValueView>, id: Seq<char>) -> bool {
    flag_at(values, id) == Some(true)
}

/// Whether `raw` holds what was read from a command line: each value under the identifier
/// of its option, and the subcommand where one was read.
pub open spec fn cli_read(
    raw: RawCli,
    values: Map<Seq<char>, ValueView>,
    subcommand: Option<Seq<char>>,
    inner: Map<Seq<char>, ValueView>,
) -> bool {
    &&& option_view(raw.hostname) == text_at(values, "hostname"@)
    &&& raw.port == port_at(values, "port"@)
    &&& raw.database == database_at(values, "database"@)
    &&& option_view(raw.username) == text_at(values, "username"@)
    &&& option_view(raw.auth) == text_at(values, "auth"@)
    &&& option_view(raw.graph) == text_at(values, "graph"@)
    &&& option_view(raw.eval) == text_at(values, "eval"@)
    &&& option_view(raw.file) == text_at(values, "file"@)
    &&& option_view(raw.format) == text_at(values, "format"@)
    &&& raw.quiet == flag_set(values, "quiet"@)
    &&& raw.raw == flag_set(values, "raw"@)
    &&& match (raw.command, subcommand) {
        (Some(command), Some(name)) => command_read(command, name, inner),
        (None, None) => true,
        _ => false,
    }
}

/// What a command line gives, by what `clap` made of it: where it has read the line, the
/// `Cli` of the values that it has read; where it has refused the line, or was asked for
/// the help or the version, `Usage` with its text.
pub open spec fn parsed_as(
    r: Result<Cli, CliError>,
    reply: Result<clap::ArgMatches, (String, bool)>,
) -> bool {
    match reply {
        Ok(matches) => exists|raw: RawCli|
            #![trigger cli_of(raw)]
            cli_read(
                raw,
                values_in(matches),
                subcommand_name_in(matches),
                subcommand_values_in(matches),
            ) && r == cli_of(raw),
        Err((message, failure)) => r == Err::<Cli, CliError>(
            CliError::Usage { message, failure },
        ),
    }
}

/// One argument of a command definition, as far as this library sets it: its identifier,
/// its long and short names, its default, whether it must be given, and how its value is
/// read.
pub struct ArgumentView {
    pub id: Seq<char>,
    pub long: Option<Seq<char>>,
    pub short: Option<char>,
    pub default: Option<Seq<char>>,
    pub required: bool,
    pub kind: OptionKind,
}

/// A value that `clap` has read for an argument.
pub enum ValueView {
    Text(Seq<char>),
    Flag(bool),
    Port(u16),
    Database(u8),
}

/// The name of a command definition: what `clap::Command::get_name` gives.
pub uninterp spec fn name_of(command: clap::Command) -> Seq<char>;

/// The arguments that a command definition holds, in the order in which they were added:
/// what `clap::Command::get_arguments` yields.
pub uninterp spec fn arguments_of(command: clap::Command) -> Seq<ArgumentView>;

/// The subcommands that a command definition holds, in the order in which they were
/// added, each with its name and its arguments: what `clap::Command::get_subcommands`
/// yields.
pub uninterp spec fn subcommands_of(command: clap::Command) -> Seq<(Seq<char>, Seq<ArgumentView>)>;

/// The first value of each argument that `clap` has read, by the argument's identifier.
pub uninterp spec fn values_in(matches: clap::ArgMatches) -> Map<Seq<char>, ValueView>;

/// The name of the subcommand that `clap` has read, if it has read one.
pub uninterp spec fn subcommand_name_in(matches: clap::ArgMatches) -> Option<Seq<char>>;

/// The first value of each argument that `clap` has read for the subcommand.
pub uninterp spec fn subcommand_values_in(matches: clap::ArgMatches) -> Map<
    Seq<char>,
    ValueView,
>;

/// The model of an optional text.
pub open spec fn text_view(text: Option<&'static str>) -> Option<Seq<char>> {
    match text {
        Some(t) => Some(t@),
        None => None,
    }
}

/// The definition `before` with one more argument at its end, and nothing else changed.
pub open spec fn argument_added(
    r: clap::Command,
    before: clap::Command,
    argument: ArgumentView,
) -> bool {
    &&& name_of(r) == name_of(before)
    &&& arguments_of(r) == arguments_of(before).push(argument)
    &&& subcommands_of(r) == subcommands_of(before)
}

/// Calls `clap::Command::new` and `about`. Trusted: the definition has the name that was
/// given, and neither arguments nor subcommands yet.
#[verifier::external_body]
fn new_command(name: &'static str, about: &'static str) -> (r: clap::Command)
    ensures
        name_of(r) == name@,
        arguments_of(r) == Seq::<ArgumentView>::empty(),
        subcommands_of(r) == Seq::<(Seq<char>, Seq<ArgumentView>)>::empty(),
{
    clap::Command::new(name).about(about)
}

/// Calls `clap::Command::version` and `long_about`. Trusted: these set texts of the help
/// and leave the name, the arguments and the subcommands as they are.
#[verifier::external_body]
fn with_version(command: clap::Command, version: &'static str, long_about: &'static str) -> (r:
    clap::Command)
    ensures
        name_of(r) == name_of(command),
        arguments_of(r) == arguments_of(command),
        subcommands_of(r) == subcommands_of(command),
{
    command.version(version).long_about(long_about)
}

/// Calls `clap::Command::subcommand`. Trusted: the subcommand is added behind those that
/// are there, and nothing else changes.
#[verifier::external_body]
fn with_subcommand(command: clap::Command, subcommand: clap::Command) -> (r: clap::Command)
    ensures
        name_of(r) == name_of(command),
        arguments_of(r) == arguments_of(command),
        subcommands_of(r) == subcommands_of(command).push(
            (name_of(subcommand), arguments_of(subcommand)),
        ),
{
    command.subcommand(subcommand)
}

/// Calls `clap::Command::arg` with an argument that `clap::Arg::new`, `long`, `short`,
/// `default_value`, `required` and `help` have made: one whose value is a text. `short`
/// refuses a hyphen. Trusted: the argument is added behind those that are there, with what
/// was given, and nothing else changes.
#[verifier::external_body]
fn with_text(
    command: clap::Command,
    id: &'static str,
    long: Option<&'static str>,
    short: Option<char>,
    default: Option<&'static str>,
    required: bool,
    help: &'static str,
) -> (r: clap::Command)
    requires
        short != Some('-'),
    ensures
        argument_added(
            r,
            command,
            ArgumentView {
                id: id@,
                long: text_view(long),
                short,
                default: text_view(default),
                required,
                kind: OptionKind::Text,
            },
        ),
{
    let arg = clap::Arg::new(id).long(long).short(short).default_value(default);
    command.arg(arg.required(required).help(help))
}

/// As `with_text`, and calls `clap::Arg::value_parser` with the parser of `u16`: an
/// argument whose value is a port. Trusted as `with_text` is.
#[verifier::external_body]
fn with_port(
    command: clap::Command,
    id: &'static str,
    long: Option<&'static str>,
    short: Option<char>,
    default: Option<&'static str>,
    required: bool,
    help: &'static str,
) -> (r: clap::Command)
    requires
        short != Some('-'),
    ensures
        argument_added(
            r,
            command,
            ArgumentView {
                id: id@,
                long: text_view(long),
                short,
                default: text_view(default),
                required,
                kind: OptionKind::Port,
            },
        ),
{
    let arg = clap::Arg::new(id).long(long).short(short).default_value(default);
    let arg = arg.value_parser(clap::builder::RangedI64ValueParser::<u16>::new());
    command.arg(arg.required(required).help(help))
}

/// As `with_text`, and calls `clap::Arg::value_parser` with the parser of `u8`: an
/// argument whose value is a database number. Trusted as `with_text` is.
#[verifier::external_body]
fn with_database(
    command: clap::Command,
    id: &'static str,
    long: Option<&'static str>,
    short: Option<char>,
    default: Option<&'static str>,
    required: bool,
    help: &'static str,
) -> (r: clap::Command)
    requires
        short != Some('-'),
    ensures
        argument_added(
            r,
            command,
            ArgumentView {
                id: id@,
                long: text_view(long),
                short,
                default: text_view(default),
                required,
                kind: OptionKind::Database,
            },
        ),
{
    let arg = clap::Arg::new(id).long(long).short(short).default_value(default);
    let arg = arg.value_parser(clap::builder::RangedI64ValueParser::<u8>::new());
    command.arg(arg.required(required).help(help))
}

/// As `with_text`, and calls `clap::Arg::action` with `SetTrue`: a flag, which takes no
/// value. Trusted as `with_text` is.
#[verifier::external_body]
fn with_flag(
    command: clap::Command,
    id: &'static str,
    long: Option<&'static str>,
    short: Option<char>,
    default: Option<&'static str>,
    required: bool,
    help: &'static str,
) -> (r: clap::Command)
    requires
        short != Some('-'),
    ensures
        argument_added(
            r,
            command,
            ArgumentView {
                id: id@,
                long: text_view(long),
                short,
                default: text_view(default),
                required,
                kind: OptionKind::Flag,
            },
        ),
{
    let arg = clap::Arg::new(id).long(long).short(short).default_value(default);
    let arg = arg.action(clap::ArgAction::SetTrue);
    command.arg(arg.required(required).help(help))
}

/// The names of the subcommands of a definition, in their order.
pub open spec fn subcommand_names_in(command: clap::Command) -> Seq<Seq<char>> {
    Seq::new(subcommands_of(command).len(), |i: int| subcommands_of(command)[i].0)
}

/// Calls `clap::Command::get_subcommands`, and `get_name` on each subcommand. Trusted: the
/// result holds the names of the subcommands in the order in which they were added.
#[verifier::external_body]
pub(crate) fn subcommand_names_of(command: &clap::Command) -> (r: Vec<String>)
    ensures
        r.deep_view() == subcommand_names_in(*command),
{
    command.get_subcommands().map(|subcommand| subcommand.get_name().to_string()).collect()
}

/// The definition of this program names its subcommands as `subcommand_names` does.
pub proof fn lemma_definition_names(command: clap::Command)
    requires
        is_definition(command),
    ensures
        subcommand_names_in(command) == subcommand_names(),
{
    assert(subcommand_names_in(command) =~= subcommand_names());
}

/// Whether `command` is the definition of this program's command line.
pub open spec fn is_definition(command: clap::Command) -> bool {
    &&& name_of(command) == "falkordb-cli"@
    &&& arguments_of(command) == option_arguments()
    &&& subcommands_of(command) == subcommand_definitions()
}

/// What `clap` reads from a command line under the definition of this program: the values
/// of the arguments, the name of the subcommand if there is one, and the values of the
/// subcommand's arguments; or `None` where it does not read the line, because it refuses
/// it or because the line asks for the help or the version.
pub uninterp spec fn read_by_clap(args: Seq<Seq<char>>) -> Option<
    (Map<Seq<char>, ValueView>, Option<Seq<char>>, Map<Seq<char>, ValueView>),
>;

/// Calls `clap::Command::try_get_matches_from`. An error comes back as its text and as
/// whether `clap` would write it to the error stream. Trusted: whether `clap` reads the
/// line, and what it reads, depend on the definition and on the line alone, and are named
/// `read_by_clap` in contracts; nothing is promised of the text of an error. In a build
/// with debug assertions `clap` checks the definition first and panics if it is
/// inconsistent; the definition of this program passes that check, and no other is
/// admitted.
#[verifier::external_body]
fn get_matches(command: clap::Command, args: &Vec<String>) -> (r: Result<
    clap::ArgMatches,
    (String, bool),
>)
    requires
        is_definition(command),
    ensures
        match r {
            Ok(matches) => read_by_clap(args.deep_view()) == Some(
                (values_in(matches), subcommand_name_in(matches), subcommand_values_in(matches)),
            ),
            Err(_) => read_by_clap(args.deep_view()) is None,
        },
{
    command.try_get_matches_from(args).map_err(|e| (e.to_string(), e.use_stderr()))
}

/// What a command line gives: where `clap` reads it, the `Cli` of the values that it
/// reads; where it does not, `Usage`.
pub open spec fn parsed(r: Result<Cli, CliError>, args: Seq<Seq<char>>) -> bool {
    match read_by_clap(args) {
        Some((values, subcommand, inner)) => exists|raw: RawCli|
            #![trigger cli_of(raw)]
            cli_read(raw, values, subcommand, inner) && r == cli_of(raw),
        None => r matches Err(e) && e is Usage,
    }
}

/// The text that was read for `id`, if one was.
pub open spec fn text_at(values: Map<Seq<char>, ValueView>, id: Seq<char>) -> Option<Seq<char>> {
    if values.contains_key(id) {
        match values[id] {
            ValueView::Text(text) => Some(text),
            _ => None,
        }
    } else {
        None
    }
}

/// The flag that was read for `id`, if one was.
pub open spec fn flag_at(values: Map<Seq<char>, ValueView>, id: Seq<char>) -> Option<bool> {
    if values.contains_key(id) {
        match values[id] {
            ValueView::Flag(set) => Some(set),
            _ => None,
        }
    } else {
        None
    }
}

/// The port that was read for `id`, if one was.
pub open spec fn port_at(values: Map<Seq<char>, ValueView>, id: Seq<char>) -> Option<u16> {
    if values.contains_key(id) {
        match values[id] {
            ValueView::Port(port) => Some(port),
            _ => None,
        }
    } else {
        None
    }
}

/// The database number that was read for `id`, if one was.
pub open spec fn database_at(values: Map<Seq<char>, ValueView>, id: Seq<char>) -> Option<u8> {
    if values.contains_key(id) {
        match values[id] {
            ValueView::Database(database) => Some(database),
            _ => None,
        }
    } else {
        None
    }
}

/// Calls `clap::ArgMatches::try_get_one` for a text. Trusted: the result is the first value
/// that was read for `id`, where that is a text; an identifier that the definition does
/// not hold, or one of a value that is no text, gives `None`.
#[verifier::external_body]
fn text_of(matches: &clap::ArgMatches, id: &str) -> (r: Option<String>)
    ensures
        option_view(r) == text_at(values_in(*matches), id@),
{
    matches.try_get_one::<String>(id).ok().flatten().cloned()
}

/// Calls `clap::ArgMatches::try_get_one` for a flag. Trusted: the result is the first value
/// that was read for `id`, where that is a flag.
#[verifier::external_body]
fn flag_of(matches: &clap::ArgMatches, id: &str) -> (r: Option<bool>)
    ensures
        r == flag_at(values_in(*matches), id@),
{
    matches.try_get_one::<bool>(id).ok().flatten().copied()
}

/// Calls `clap::ArgMatches::try_get_one` for a `u16`. Trusted: the result is the first
/// value that was read for `id`, where that is a port.
#[verifier::external_body]
fn port_of(matches: &clap::ArgMatches, id: &str) -> (r: Option<u16>)
    ensures
        r == port_at(values_in(*matches), id@),
{
    matches.try_get_one::<u16>(id).ok().flatten().copied()
}

/// Calls `clap::ArgMatches::try_get_one` for a `u8`. Trusted: the result is the first value
/// that was read for `id`, where that is a database number.
#[verifier::external_body]
fn database_of(matches: &clap::ArgMatches, id: &str) -> (r: Option<u8>)
    ensures
        r == database_at(values_in(*matches), id@),
{
    matches.try_get_one::<u8>(id).ok().flatten().copied()
}

/// Calls `clap::ArgMatches::remove_subcommand`. Trusted: the result is the name of the
/// subcommand that was read and what was read for it, or `None` where none was read.
#[verifier::external_body]
fn subcommand_of(matches: clap::ArgMatches) -> (r: Option<(String, clap::ArgMatches)>)
    ensures
        match r {
            Some((name, inner)) => subcommand_name_in(matches) == Some(name@) && values_in(inner)
                == subcommand_values_in(matches),
            None => subcommand_name_in(matches) is None,
        },
{
    let mut matches = matches;
    matches.remove_subcommand()
}

/// A value that is always there, or `MissingArgument`.
pub open spec fn required(value: Option<String>, name: &'static str) -> Result<String, CliError> {
    match value {
        Some(text) => Ok(text),
        None => Err(CliError::MissingArgument { name }),
    }
}

/// A subcommand that takes a graph and nothing else.
pub open spec fn on_graph(raw: RawCommand, make: spec_fn(String) -> Commands) -> Result<
    Commands,
    CliError,
> {
    match raw.graph {
        Some(graph) => Ok(make(graph)),
        None => Err(CliError::MissingArgument { name: "graph" }),
    }
}

/// A subcommand that takes a graph and a query.
pub open spec fn on_query(raw: RawCommand, make: spec_fn(String, String) -> Commands) -> Result<
    Commands,
    CliError,
> {
    match (raw.graph, raw.query) {
        (Some(graph), Some(query)) => Ok(make(graph, query)),
        (None, _) => Err(CliError::MissingArgument { name: "graph" }),
        (Some(_), None) => Err(CliError::MissingArgument { name: "query" }),
    }
}

/// A subcommand that takes a graph, an entity type, a label and a property.
pub open spec fn on_index(
    raw: RawCommand,
    make: spec_fn(String, String, String, String) -> Commands,
) -> Result<Commands, CliError> {
    match (raw.graph, raw.entity_type, raw.label, raw.property) {
        (Some(graph), Some(entity_type), Some(label), Some(property)) => Ok(
            make(graph, entity_type, label, property),
        ),
        (None, _, _, _) => Err(CliError::MissingArgument { name: "graph" }),
        (Some(_), None, _, _) => Err(CliError::MissingArgument { name: "entity_type" }),
        (Some(_), Some(_), None, _) => Err(CliError::MissingArgument { name: "label" }),
        (Some(_), Some(_), Some(_), None) => Err(CliError::MissingArgument { name: "property" }),
    }
}

/// The subcommand that plain values stand for: the one that `name` names, with the values
/// that it takes. A value that it takes and that is not there is a `MissingArgument`; a
/// name that is none of `subcommand_names` is an `UnknownSubcommand`.
pub open spec fn command_of(raw: RawCommand) -> Result<Commands, CliError> {
    let name = raw.name@;
    if name == "query"@ {
        on_query(raw, |graph, query| Commands::Query { graph, query, params: raw.params })
    } else if name == "ro-query"@ {
        on_query(raw, |graph, query| Commands::RoQuery { graph, query, params: raw.params })
    } else if name == "profile"@ {
        on_query(raw, |graph, query| Commands::Profile { graph, query })
    } else if name == "explain"@ {
        on_query(raw, |graph, query| Commands::Explain { graph, query })
    } else if name == "delete"@ {
        on_graph(raw, |graph| Commands::Delete { graph })
    } else if name == "list"@ {
        Ok(Commands::List)
    } else if name == "schema"@ {
        on_graph(raw, |graph| Commands::Schema { graph })
    } else if name == "slowlog"@ {
        on_graph(raw, |graph| Commands::Slowlog { graph })
    } else if name == "slowlog-reset"@ {
        on_graph(raw, |graph| Commands::SlowlogReset { graph })
    } else if name == "indices"@ {
        on_graph(raw, |graph| Commands::Indices { graph })
    } else if name == "create-index"@ {
        on_index(
            raw,
            |graph, entity_type, label, property|
                Commands::CreateIndex { graph, entity_type, label, property },
        )
    } else if name == "drop-index"@ {
        on_index(
            raw,
            |graph, entity_type, label, property|
                Commands::DropIndex { graph, entity_type, label, property },
        )
    } else if name == "call"@ {
        match (raw.graph, raw.procedure) {
            (Some(graph), Some(procedure)) => Ok(
                Commands::Call { graph, procedure, args: raw.args },
            ),
            (None, _) => Err(CliError::MissingArgument { name: "graph" }),
            (Some(_), None) => Err(CliError::MissingArgument { name: "procedure" }),
        }
    } else if name == "interactive"@ {
        Ok(Commands::Interactive)
    } else {
        Err(CliError::UnknownSubcommand { name: raw.name })
    }
}

/// The subcommand of a command line, where it has one.
pub open spec fn optional_command(raw: Option<RawCommand>) -> Result<Option<Commands>, CliError> {
    match raw {
        None => Ok(None),
        Some(command) => match command_of(command) {
            Ok(command) => Ok(Some(command)),
            Err(e) => Err(e),
        },
    }
}

/// The `Cli` that plain values stand for. The host name, the port, the database and the
/// format are always there, since each has a default; where one is not, or where the
/// subcommand is not in order, there is no `Cli`.
pub open spec fn cli_of(raw: RawCli) -> Result<Cli, CliError> {
    match (raw.hostname, raw.port, raw.database, raw.format, optional_command(raw.command)) {
        (None, _, _, _, _) => Err(CliError::MissingArgument { name: "hostname" }),
        (Some(_), None, _, _, _) => Err(CliError::MissingArgument { name: "port" }),
        (Some(_), Some(_), None, _, _) => Err(CliError::MissingArgument { name: "database" }),
        (Some(_), Some(_), Some(_), None, _) => Err(CliError::MissingArgument { name: "format" }),
        (Some(_), Some(_), Some(_), Some(_), Err(e)) => Err(e),
        (Some(hostname), Some(port), Some(database), Some(format), Ok(command)) => Ok(
            Cli {
                hostname,
                port,
                database,
                username: raw.username,
                auth: raw.auth,
                graph: raw.graph,
                eval: raw.eval,
                file: raw.file,
                format,
                quiet: raw.quiet,
                raw: raw.raw,
                command,
            },
        ),
    }
}

/// No two subcommands have the same name: the names differ in length or in their first
/// character.
pub proof fn lemma_names_differ()
    ensures
        forall|i: int, j: int|
            0 <= i < j < subcommand_names().len() ==> subcommand_names()[i]
                != subcommand_names()[j],
{
    reveal_strlit("query");
    reveal_strlit("ro-query");
    reveal_strlit("profile");
    reveal_strlit("explain");
    reveal_strlit("delete");
    reveal_strlit("list");
    reveal_strlit("schema");
    reveal_strlit("slowlog");
    reveal_strlit("slowlog-reset");
    reveal_strlit("indices");
    reveal_strlit("create-index");
    reveal_strlit("drop-index");
    reveal_strlit("call");
    reveal_strlit("interactive");
    let names = subcommand_names();
    assert(names.len() == 14);
    assert(names[2][0] == 'p' && names[3][0] == 'e' && names[7][0] == 's' && names[9][0] == 'i');
    assert(names[4][0] == 'd' && names[6][0] == 's');
    assert(names[5][0] == 'l' && names[12][0] == 'c');
    assert forall|i: int, j: int| 0 <= i < j < names.len() implies names[i] != names[j] by {
        if names[i].len() == names[j].len() {
            assert(names[i][0] != names[j][0]);
        }
    }
}

impl Commands {
    /// The subcommand that the plain values `raw` stand for.
    pub fn from_raw(raw: RawCommand) -> (r: Result<Commands, CliError>)
        ensures
            r == command_of(raw),
    {
        let RawCommand { name, graph, query, params, entity_type, label, property, procedure, args } =
            raw;
        let n = name.as_str();
        proof {
            lemma_names_differ();
            let names = subcommand_names();
            assert(names[0] == "query"@ && names[1] == "ro-query"@ && names[2] == "profile"@
                && names[3] == "explain"@ && names[4] == "delete"@ && names[5] == "list"@
                && names[6] == "schema"@ && names[7] == "slowlog"@ && names[8]
                == "slowlog-reset"@ && names[9] == "indices"@ && names[10] == "create-index"@
                && names[11] == "drop-index"@ && names[12] == "call"@ && names[13]
                == "interactive"@);
        }
        if crate::text::str_eq(n, "list") {
            return Ok(Commands::List);
        }
        if crate::text::str_eq(n, "interactive") {
            return Ok(Commands::Interactive);
        }
        let known = crate::text::str_eq(n, "query") || crate::text::str_eq(n, "ro-query")
            || crate::text::str_eq(n, "profile") || crate::text::str_eq(n, "explain")
            || crate::text::str_eq(n, "delete") || crate::text::str_eq(n, "schema")
            || crate::text::str_eq(n, "slowlog") || crate::text::str_eq(n, "slowlog-reset")
            || crate::text::str_eq(n, "indices") || crate::text::str_eq(n, "create-index")
            || crate::text::str_eq(n, "drop-index") || crate::text::str_eq(n, "call");
        if !known {
            return Err(CliError::UnknownSubcommand { name });
        }
        let graph = match graph {
            Some(graph) => graph,
            None => {
                return Err(CliError::MissingArgument { name: "graph" });
            },
        };
        if crate::text::str_eq(n, "delete") {
            return Ok(Commands::Delete { graph });
        }
        if crate::text::str_eq(n, "schema") {
            return Ok(Commands::Schema { graph });
        }
        if crate::text::str_eq(n, "slowlog") {
            return Ok(Commands::Slowlog { graph });
        }
        if crate::text::str_eq(n, "slowlog-reset") {
            return Ok(Commands::SlowlogReset { graph });
        }
        if crate::text::str_eq(n, "indices") {
            return Ok(Commands::Indices { graph });
        }
        if crate::text::str_eq(n, "call") {
            return match procedure {
                Some(procedure) => Ok(Commands::Call { graph, procedure, args }),
                None => Err(CliError::MissingArgument { name: "procedure" }),
            };
        }
        if crate::text::str_eq(n, "create-index") || crate::text::str_eq(n, "drop-index") {
            let entity_type = match entity_type {
                Some(entity_type) => entity_type,
                None => {
                    return Err(CliError::MissingArgument { name: "entity_type" });
                },
            };
            let label = match label {
                Some(label) => label,
                None => {
                    return Err(CliError::MissingArgument { name: "label" });
                },
            };
            let property = match property {
                Some(property) => property,
                None => {
                    return Err(CliError::MissingArgument { name: "property" });
                },
            };
            return if crate::text::str_eq(n, "create-index") {
                Ok(Commands::CreateIndex { graph, entity_type, label, property })
            } else {
                Ok(Commands::DropIndex { graph, entity_type, label, property })
            };
        }
        let query = match query {
            Some(query) => query,
            None => {
                return Err(CliError::MissingArgument { name: "query" });
            },
        };
        if crate::text::str_eq(n, "query") {
            Ok(Commands::Query { graph, query, params })
        } else if crate::text::str_eq(n, "ro-query") {
            Ok(Commands::RoQuery { graph, query, params })
        } else if crate::text::str_eq(n, "profile") {
            Ok(Commands::Profile { graph, query })
        } else {
            Ok(Commands::Explain { graph, query })
        }
    }
}

impl Cli {
    /// The `Cli` that the plain values `raw` stand for.
    pub fn from_raw(raw: RawCli) -> (r: Result<Cli, CliError>)
        ensures
            r == cli_of(raw),
    {
        let RawCli {
            hostname,
            port,
            database,
            username,
            auth,
            graph,
            eval,
            file,
            format,
            quiet,
            raw,
            command,
        } = raw;
        let hostname = match hostname {
            Some(hostname) => hostname,
            None => {
                return Err(CliError::MissingArgument { name: "hostname" });
            },
        };
        let port = match port {
            Some(port) => port,
            None => {
                return Err(CliError::MissingArgument { name: "port" });
            },
        };
        let database = match database {
            Some(database) => database,
            None => {
                return Err(CliError::MissingArgument { name: "database" });
            },
        };
        let format = match format {
            Some(format) => format,
            None => {
                return Err(CliError::MissingArgument { name: "format" });
            },
        };
        let command = match command {
            None => None,
            Some(command) => match Commands::from_raw(command) {
                Ok(command) => Some(command),
                Err(e) => {
                    return Err(e);
                },
            },
        };
        Ok(
            Cli {
                hostname,
                port,
                database,
                username,
                auth,
                graph,
                eval,
                file,
                format,
                quiet,
                raw,
                command,
            },
        )
    }
}

/// Adds the positional argument that names the graph of a subcommand.
fn graph_argument(command: clap::Command) -> (r: clap::Command)
    ensures
        argument_added(r, command, positional_argument("graph"@)),
{
    with_text(command, "graph", None, None, None, true, "Graph name")
}

/// A subcommand that takes a graph and nothing else.
fn graph_command(name: &'static str, about: &'static str) -> (r: clap::Command)
    ensures
        name_of(r) == name@,
        arguments_of(r) == graph_arguments(),
        subcommands_of(r) == Seq::<(Seq<char>, Seq<ArgumentView>)>::empty(),
{
    let r = graph_argument(new_command(name, about));
    assert(arguments_of(r) =~= graph_arguments());
    r
}

/// A subcommand that takes a graph and a query.
fn query_command(name: &'static str, about: &'static str) -> (r: clap::Command)
    ensures
        name_of(r) == name@,
        arguments_of(r) == query_arguments(),
        subcommands_of(r) == Seq::<(Seq<char>, Seq<ArgumentView>)>::empty(),
{
    let r = with_text(graph_command(name, about), "query", None, None, None, true, "Cypher query");
    assert(arguments_of(r) =~= query_arguments());
    r
}

/// A subcommand that takes a graph, a query and, as an option, its parameters.
fn query_command_with_params(name: &'static str, about: &'static str) -> (r: clap::Command)
    ensures
        name_of(r) == name@,
        arguments_of(r) == query_arguments_with_params(),
        subcommands_of(r) == Seq::<(Seq<char>, Seq<ArgumentView>)>::empty(),
{
    with_text(
        query_command(name, about),
        "params",
        Some("params"),
        Some('p'),
        None,
        false,
        "Query parameters in JSON format",
    )
}

/// A subcommand that takes a graph, an entity type, a label and a property.
fn index_command(name: &'static str, about: &'static str) -> (r: clap::Command)
    ensures
        name_of(r) == name@,
        arguments_of(r) == index_arguments(),
        subcommands_of(r) == Seq::<(Seq<char>, Seq<ArgumentView>)>::empty(),
{
    let command = graph_command(name, about);
    let command = with_text(
        command,
        "entity_type",
        None,
        None,
        None,
        true,
        "Entity type (NODE or EDGE)",
    );
    let command = with_text(command, "label", None, None, None, true, "Label");
    let r = with_text(command, "property", None, None, None, true, "Property");
    assert(arguments_of(r) =~= index_arguments());
    r
}

/// The subcommand that calls a procedure.
fn call_command(name: &'static str, about: &'static str) -> (r: clap::Command)
    ensures
        name_of(r) == name@,
        arguments_of(r) == call_arguments(),
        subcommands_of(r) == Seq::<(Seq<char>, Seq<ArgumentView>)>::empty(),
{
    let command = graph_command(name, about);
    let command = with_text(command, "procedure", None, None, None, true, "Procedure name");
    let r = with_text(
        command,
        "args",
        Some("args"),
        Some('a'),
        None,
        false,
        "Arguments in JSON format",
    );
    assert(arguments_of(r) =~= call_arguments());
    r
}

/// The plain values of what `clap` has read for the subcommand `name`.
fn read_command(name: String, matches: &clap::ArgMatches) -> (r: RawCommand)
    ensures
        r.name == name,
        command_read(r, name@, values_in(*matches)),
{
    RawCommand {
        name,
        graph: text_of(matches, "graph"),
        query: text_of(matches, "query"),
        params: text_of(matches, "params"),
        entity_type: text_of(matches, "entity_type"),
        label: text_of(matches, "label"),
        property: text_of(matches, "property"),
        procedure: text_of(matches, "procedure"),
        args: text_of(matches, "args"),
    }
}

/// The plain values of what `clap` has read from a command line. A flag that was not read
/// counts as not set.
fn read_matches(matches: clap::ArgMatches) -> (r: RawCli)
    ensures
        cli_read(
            r,
            values_in(matches),
            subcommand_name_in(matches),
            subcommand_values_in(matches),
        ),
{
    let hostname = text_of(&matches, "hostname");
    let port = port_of(&matches, "port");
    let database = database_of(&matches, "database");
    let username = text_of(&matches, "username");
    let auth = text_of(&matches, "auth");
    let graph = text_of(&matches, "graph");
    let eval = text_of(&matches, "eval");
    let file = text_of(&matches, "file");
    let format = text_of(&matches, "format");
    let quiet = match flag_of(&matches, "quiet") {
        Some(set) => set,
        None => false,
    };
    let raw = match flag_of(&matches, "raw") {
        Some(set) => set,
        None => false,
    };
    let command = match subcommand_of(matches) {
        Some((name, inner)) => Some(read_command(name, &inner)),
        None => None,
    };
    RawCli {
        hostname,
        port,
        database,
        username,
        auth,
        graph,
        eval,
        file,
        format,
        quiet,
        raw,
        command,
    }
}

/// No global option has the hyphen for its short name.
proof fn lemma_shorts()
    ensures
        global_options().len() == 11,
        forall|i: int| 0 <= i < 11 ==> (#[trigger] global_options()[i]).short != Some('-'),
{
    let all = global_options();
    assert(all[0].short is None && all[6].short is None && all[8].short is None);
    assert(all[1].short == Some('p') && all[2].short == Some('n') && all[3].short == Some('u'));
    assert(all[4].short == Some('a') && all[5].short == Some('g') && all[7].short == Some('f'));
    assert(all[9].short == Some('q') && all[10].short == Some('r'));
}

/// Adds the argument that stands for a global option.
fn argument(command: clap::Command, spec: &OptionSpec) -> (r: clap::Command)
    requires
        spec.short != Some('-'),
    ensures
        argument_added(r, command, option_argument(spec.deep_view())),
{
    let long = Some(spec.name);
    match spec.kind {
        OptionKind::Text => with_text(
            command,
            spec.name,
            long,
            spec.short,
            spec.default,
            false,
            spec.help,
        ),
        OptionKind::Port => with_port(
            command,
            spec.name,
            long,
            spec.short,
            spec.default,
            false,
            spec.help,
        ),
        OptionKind::Database => with_database(
            command,
            spec.name,
            long,
            spec.short,
            spec.default,
            false,
            spec.help,
        ),
        OptionKind::Flag => with_flag(
            command,
            spec.name,
            long,
            spec.short,
            spec.default,
            false,
            spec.help,
        ),
    }
}

/// A global option that takes a text and has no default.
fn text_option_spec(name: &'static str, short: Option<char>, help: &'static str) -> (r: OptionSpec)
    ensures
        r.deep_view() == text_option(name@, short),
{
    OptionSpec { name, short, default: None, kind: OptionKind::Text, help }
}

impl Cli {
    /// The global options of the command line, in the order of the fields of `Cli`.
    pub fn options() -> (r: Vec<OptionSpec>)
        ensures
            r.deep_view() == global_options(),
    {
        let mut r: Vec<OptionSpec> = Vec::new();
        r.push(
            OptionSpec {
                name: "hostname",
                short: None,
                default: Some("localhost"),
                kind: OptionKind::Text,
                help: "FalkorDB server hostname",
            },
        );
        r.push(
            OptionSpec {
                name: "port",
                short: Some('p'),
                default: Some("6379"),
                kind: OptionKind::Port,
                help: "FalkorDB server port",
            },
        );
        r.push(
            OptionSpec {
                name: "database",
                short: Some('n'),
                default: Some("0"),
                kind: OptionKind::Database,
                help: "Database number",
            },
        );
        r.push(text_option_spec("username", Some('u'), "Username for authentication"));
        r.push(text_option_spec("auth", Some('a'), "Connection password"));
        r.push(text_option_spec("graph", Some('g'), "Graph name to operate on"));
        r.push(text_option_spec("eval", None, "Execute command and exit"));
        r.push(text_option_spec("file", Some('f'), "Read commands from file"));
        r.push(
            OptionSpec {
                name: "format",
                short: None,
                default: Some("table"),
                kind: OptionKind::Text,
                help: "Output format (json, table, csv)",
            },
        );
        r.push(
            OptionSpec {
                name: "quiet",
                short: Some('q'),
                default: None,
                kind: OptionKind::Flag,
                help: "Quiet mode - suppress non-essential output",
            },
        );
        r.push(
            OptionSpec {
                name: "raw",
                short: Some('r'),
                default: None,
                kind: OptionKind::Flag,
                help: "Raw output mode",
            },
        );
        assert(r.deep_view() =~= global_options());
        r
    }

    /// The definition of the command line for `clap`: it has the name of the program, holds
    /// the global options of `Cli::options` as its arguments, and the subcommands of
    /// `Commands::names`, each with the arguments that it takes.
    pub fn command() -> (r: clap::Command)
        ensures
            is_definition(r),
    {
        let names = Commands::names();
        proof {
            assert(names.len() == 14) by {
                assert(names.deep_view().len() == subcommand_names().len());
            }
            assert forall|k: int| 0 <= k < 14 implies (#[trigger] names@[k])@
                == subcommand_names()[k] by {
                assert(names.deep_view()[k] == names@[k]@);
            }
        }
        let root = new_command("falkordb-cli", "A command-line interface for FalkorDB");
        let root = with_version(
            root,
            "0.1.0",
            "A Redis-cli like interface for FalkorDB graph database operations.\n\nAuthentication:\n  Use -u for username and -a for password.\n  Supports: no auth, password only, or username:password combinations.",
        );
        let options = Self::options();
        let mut root = root;
        let mut i: usize = 0;
        assert(arguments_of(root) =~= option_arguments().take(0));
        while i < options.len()
            invariant
                i <= options.len(),
                options.deep_view() == global_options(),
                name_of(root) == "falkordb-cli"@,
                arguments_of(root) == option_arguments().take(i as int),
                subcommands_of(root) == Seq::<(Seq<char>, Seq<ArgumentView>)>::empty(),
            decreases options.len() - i,
        {
            assert(options.deep_view()[i as int] == options@[i as int].deep_view());
            proof {
                lemma_shorts();
            }
            root = argument(root, &options[i]);
            assert(arguments_of(root) =~= option_arguments().take(i + 1));
            i = i + 1;
        }
        assert(arguments_of(root) =~= option_arguments());
        let root = with_subcommand(
            root,
            query_command_with_params(names[0], "Execute a Cypher query on a graph"),
        );
        let root = with_subcommand(
            root,
            query_command_with_params(names[1], "Execute a read-only Cypher query"),
        );
        let root = with_subcommand(root, query_command(names[2], "Profile a query execution"));
        let root = with_subcommand(root, query_command(names[3], "Explain query execution plan"));
        let root = with_subcommand(root, graph_command(names[4], "Delete a graph"));
        let root = with_subcommand(root, new_command(names[5], "List all graphs"));
        let root = with_subcommand(root, graph_command(names[6], "Show graph schema"));
        let root = with_subcommand(root, graph_command(names[7], "Show slowlog"));
        let root = with_subcommand(root, graph_command(names[8], "Reset slowlog"));
        let root = with_subcommand(root, graph_command(names[9], "Show indices"));
        let root = with_subcommand(root, index_command(names[10], "Create index"));
        let root = with_subcommand(root, index_command(names[11], "Drop index"));
        let root = with_subcommand(root, call_command(names[12], "Call a procedure"));
        let root = with_subcommand(root, new_command(names[13], "Interactive mode"));
        assert(subcommands_of(root) =~= subcommand_definitions());
        root
    }

    /// What a command line gives, by what `clap` made of it.
    pub fn from_matches(reply: Result<clap::ArgMatches, (String, bool)>) -> (r: Result<
        Cli,
        CliError,
    >)
        ensures
            parsed_as(r, reply),
    {
        match reply {
            Ok(matches) => {
                let raw = read_matches(matches);
                let ghost read = raw;
                let r = Cli::from_raw(raw);
                assert(cli_read(
                    read,
                    values_in(matches),
                    subcommand_name_in(matches),
                    subcommand_values_in(matches),
                ) && r == cli_of(read));
                r
            },
            Err((message, failure)) => Err(CliError::Usage { message, failure }),
        }
    }

    /// Reads a command line with `clap`, by the definition of `Cli::command`. `args` holds
    /// the name of the program first.
    ///
    /// Where `clap` reads the line, the result is the `Cli` of the values that it reads,
    /// or the error of `Cli::from_raw`; where it does not, the result is `Usage` with what
    /// `clap` prints.
    pub fn parse_args(args: &Vec<String>) -> (r: Result<Cli, CliError>)
        ensures
            parsed(r, args.deep_view()),
    {
        let reply = get_matches(Self::command(), args);
        let r = Self::from_matches(reply);
        assert(parsed_as(r, reply));
        r
    }

    /// Reads a command line with `clap`, as `Cli::parse_args` does. `args` holds the name
    /// of the program first.
    pub fn try_parse_from<const N: usize>(args: [&str; N]) -> (r: Result<Cli, CliError>)
        ensures
            parsed(r, Seq::new(N as nat, |i: int| args@[i]@)),
    {
        let mut owned: Vec<String> = Vec::new();
        let mut i: usize = 0;
        while i < N
            invariant
                i <= N,
                owned.len() == i,
                forall|k: int| 0 <= k < i ==> (#[trigger] owned@[k])@ == args@[k]@,
            decreases N - i,
        {
            owned.push(String::from_str(args[i]));
            i = i + 1;
        }
        assert(owned.deep_view() =~= Seq::new(N as nat, |i: int| args@[i]@));
        Self::parse_args(&owned)
    }
}

} // verus!
