//! The conditions under which a command fails, and the text each is reported with.

use vstd::prelude::*;

verus! {

/// The index operation that a collaborator call was made for.
#[derive(Debug, Clone, Copy, PartialEq, Eq, Structural)]
pub enum IndexOperation {
    List,
    Create,
    Drop,
}

/// The slow-query-log operation that a collaborator call was made for.
#[derive(Debug, Clone, Copy, PartialEq, Eq, Structural)]
pub enum SlowlogOperation {
    Read,
    Reset,
}

/// What the user is advised to do where no graph is selected.
#[derive(Debug, Clone, Copy, PartialEq, Eq, Structural)]
pub enum GraphHint {
    /// To name a graph with `-g` or with `USE`: the advice for a command that could have
    /// named its graph.
    Specify,
    /// To select a graph with `USE` first: the advice for a query that was typed into the
    /// interactive session.
    Select,
}

/// Why a command did not succeed. Where a variant holds a `message` of a collaborator, it is
/// the collaborator's own, unchanged.
#[derive(Debug, Clone, PartialEq, Eq)]
pub enum CommandError {
    /// The connection parameters were malformed or the client could not be built.
    ConnectionSetupFailed { message: String },
    /// Neither the command nor the session names a graph.
    NoGraphSelected { hint: GraphHint },
    /// An index command named an entity type that is neither a node nor an edge.
    InvalidEntityType,
    QueryFailed { message: String },
    ProfileFailed { message: String },
    ExplainFailed { message: String },
    DeleteFailed { message: String },
    IndexOperationFailed { operation: IndexOperation, message: String },
    SlowlogFailed { operation: SlowlogOperation, message: String },
    /// The feature is declared but not implemented; `message` says which and what to do.
    UnimplementedFeature { message: String },
    /// The result could not be written out; `message` is the serialiser's.
    RenderFailed { message: String },
}

/// The mathematical model of a `CommandError`.
pub enum CommandErrorView {
    ConnectionSetupFailed { message: Seq<char> },
    NoGraphSelected { hint: GraphHint },
    InvalidEntityType,
    QueryFailed { message: Seq<char> },
    ProfileFailed { message: Seq<char> },
    ExplainFailed { message: Seq<char> },
    DeleteFailed { message: Seq<char> },
    IndexOperationFailed { operation: IndexOperation, message: Seq<char> },
    SlowlogFailed { operation: SlowlogOperation, message: Seq<char> },
    UnimplementedFeature { message: Seq<char> },
    RenderFailed { message: Seq<char> },
}

impl View for CommandError {
    type V = CommandErrorView;

    open spec fn view(&self) -> CommandErrorView {
        match *self {
            CommandError::ConnectionSetupFailed { message } => {
                CommandErrorView::ConnectionSetupFailed { message: message@ }
            },
            CommandError::NoGraphSelected { hint } => CommandErrorView::NoGraphSelected { hint },
            CommandError::InvalidEntityType => CommandErrorView::InvalidEntityType,
            CommandError::QueryFailed { message } => CommandErrorView::QueryFailed {
                message: message@,
            },
            CommandError::ProfileFailed { message } => CommandErrorView::ProfileFailed {
                message: message@,
            },
            CommandError::ExplainFailed { message } => CommandErrorView::ExplainFailed {
                message: message@,
            },
            CommandError::DeleteFailed { message } => CommandErrorView::DeleteFailed {
                message: message@,
            },
            CommandError::IndexOperationFailed { operation, message } => {
                CommandErrorView::IndexOperationFailed { operation, message: message@ }
            },
            CommandError::SlowlogFailed { operation, message } => {
                CommandErrorView::SlowlogFailed { operation, message: message@ }
            },
            CommandError::UnimplementedFeature { message } => {
                CommandErrorView::UnimplementedFeature { message: message@ }
            },
            CommandError::RenderFailed { message } => CommandErrorView::RenderFailed {
                message: message@,
            },
        }
    }
}

/// The model of a result whose two sides have models.
pub open spec fn view_result<T: View, E: View>(r: Result<T, E>) -> Result<T::V, E::V> {
    match r {
        Ok(t) => Ok(t@),
        Err(e) => Err(e@),
    }
}

/// The words that stand before a collaborator's message when an index operation failed.
pub open spec fn index_failure_prefix(operation: IndexOperation) -> Seq<char> {
    match operation {
        IndexOperation::List => "Indices query failed: "@,
        IndexOperation::Create => "Index creation failed: "@,
        IndexOperation::Drop => "Index drop failed: "@,
    }
}

/// The words that stand before a collaborator's message when a slow-log operation failed.
pub open spec fn slowlog_failure_prefix(operation: SlowlogOperation) -> Seq<char> {
    match operation {
        SlowlogOperation::Read => "Slowlog failed: "@,
        SlowlogOperation::Reset => "Slowlog reset failed: "@,
    }
}

/// The text that an error is reported with.
pub open spec fn error_text(e: CommandErrorView) -> Seq<char> {
    match e {
        CommandErrorView::ConnectionSetupFailed { message } => message,
        CommandErrorView::NoGraphSelected { hint } => match hint {
            GraphHint::Specify => "No graph specified. Use -g option or 'USE graph_name' command"@,
            GraphHint::Select => {
                "No graph selected. Use 'USE <graph_name>' first or specify graph name"@
            },
        },
        CommandErrorView::InvalidEntityType => "Invalid entity type. Use NODE or EDGE"@,
        CommandErrorView::QueryFailed { message } => "Query failed: "@ + message,
        CommandErrorView::ProfileFailed { message } => "Profile failed: "@ + message,
        CommandErrorView::ExplainFailed { message } => "Explain failed: "@ + message,
        CommandErrorView::DeleteFailed { message } => "Delete failed: "@ + message,
        CommandErrorView::IndexOperationFailed { operation, message } => index_failure_prefix(
            operation,
        ) + message,
        CommandErrorView::SlowlogFailed { operation, message } => slowlog_failure_prefix(
            operation,
        ) + message,
        CommandErrorView::UnimplementedFeature { message } => message,
        CommandErrorView::RenderFailed { message } => "Rendering failed: "@ + message,
    }
}

/// `prefix` followed by `message`.
fn prefixed(prefix: &str, message: &str) -> (r: String)
    ensures
        r@ == prefix@ + message@,
{
    let mut r = String::from_str(prefix);
    r.append(message);
    r
}

impl CommandError {
    /// The text that this error is reported with.
    pub fn message(&self) -> (r: String)
        ensures
            r@ == error_text(self@),
    {
        match self {
            CommandError::ConnectionSetupFailed { message } => message.clone(),
            CommandError::NoGraphSelected { hint } => match hint {
                GraphHint::Specify => String::from_str(
                    "No graph specified. Use -g option or 'USE graph_name' command",
                ),
                GraphHint::Select => String::from_str(
                    "No graph selected. Use 'USE <graph_name>' first or specify graph name",
                ),
            },
            CommandError::InvalidEntityType => String::from_str(
                "Invalid entity type. Use NODE or EDGE",
            ),
            CommandError::QueryFailed { message } => prefixed("Query failed: ", message.as_str()),
            CommandError::ProfileFailed { message } => prefixed(
                "Profile failed: ",
                message.as_str(),
            ),
            CommandError::ExplainFailed { message } => prefixed(
                "Explain failed: ",
                message.as_str(),
            ),
            CommandError::DeleteFailed { message } => prefixed(
                "Delete failed: ",
                message.as_str(),
            ),
            CommandError::IndexOperationFailed { operation, message } => match operation {
                IndexOperation::List => prefixed("Indices query failed: ", message.as_str()),
                IndexOperation::Create => prefixed("Index creation failed: ", message.as_str()),
                IndexOperation::Drop => prefixed("Index drop failed: ", message.as_str()),
            },
            CommandError::SlowlogFailed { operation, message } => match operation {
                SlowlogOperation::Read => prefixed("Slowlog failed: ", message.as_str()),
                SlowlogOperation::Reset => prefixed("Slowlog reset failed: ", message.as_str()),
            },
            CommandError::UnimplementedFeature { message } => message.clone(),
            CommandError::RenderFailed { message } => prefixed(
                "Rendering failed: ",
                message.as_str(),
            ),
        }
    }
}

} // verus!
