//! What one query execution gives back, as far as the session reads it: the column names
//! and the statistics. The rows stay with the collaborator.

use vstd::prelude::*;

verus! {

/// The execution time of a query, in milliseconds. The time is a floating-point number,
/// which this library does not hold: the caller writes it out, once with three decimal
/// places and once as a JSON number.
#[derive(Debug, Clone, PartialEq, Eq)]
pub struct ExecutionTime {
    /// The time with three decimal places, as the table shows it.
    pub millis: String,
    /// The time as a JSON number, or `null` where the time is not finite.
    pub number: String,
}

/// The result of one query execution.
#[derive(Debug, Clone, PartialEq, Eq)]
pub struct QueryOutcome {
    /// The column names, in order.
    pub header: Vec<String>,
    /// The statistics lines, as the server sent them.
    pub stats: Vec<String>,
    /// The execution time, where the server reported one.
    pub execution_time: Option<ExecutionTime>,
}

/// The statistics of one query execution. A count that the server did not report is
/// absent.
#[derive(Debug, Clone, PartialEq, Eq)]
pub struct Statistics {
    pub nodes_created: Option<i64>,
    pub nodes_deleted: Option<i64>,
    pub relationships_created: Option<i64>,
    pub relationships_deleted: Option<i64>,
    pub properties_set: Option<i64>,
    pub execution_time: Option<ExecutionTime>,
}

/// The mathematical model of an `ExecutionTime`.
pub struct ExecutionTimeView {
    pub millis: Seq<char>,
    pub number: Seq<char>,
}

impl View for ExecutionTime {
    type V = ExecutionTimeView;

    open spec fn view(&self) -> ExecutionTimeView {
        ExecutionTimeView { millis: self.millis@, number: self.number@ }
    }
}

/// The mathematical model of `Statistics`.
pub struct StatisticsView {
    pub nodes_created: Option<i64>,
    pub nodes_deleted: Option<i64>,
    pub relationships_created: Option<i64>,
    pub relationships_deleted: Option<i64>,
    pub properties_set: Option<i64>,
    pub execution_time: Option<ExecutionTimeView>,
}

impl View for Statistics {
    type V = StatisticsView;

    open spec fn view(&self) -> StatisticsView {
        StatisticsView {
            nodes_created: self.nodes_created,
            nodes_deleted: self.nodes_deleted,
            relationships_created: self.relationships_created,
            relationships_deleted: self.relationships_deleted,
            properties_set: self.properties_set,
            execution_time: match self.execution_time {
                Some(t) => Some(t@),
                None => None,
            },
        }
    }
}

/// The number of nodes created that `falkordb` reads from statistics lines.
pub uninterp spec fn nodes_created_in(stats: Seq<Seq<char>>) -> Option<i64>;

/// The number of nodes deleted that `falkordb` reads from statistics lines.
pub uninterp spec fn nodes_deleted_in(stats: Seq<Seq<char>>) -> Option<i64>;

/// The number of relationships created that `falkordb` reads from statistics lines.
pub uninterp spec fn relationships_created_in(stats: Seq<Seq<char>>) -> Option<i64>;

/// The number of relationships deleted that `falkordb` reads from statistics lines.
pub uninterp spec fn relationships_deleted_in(stats: Seq<Seq<char>>) -> Option<i64>;

/// The number of properties set that `falkordb` reads from statistics lines.
pub uninterp spec fn properties_set_in(stats: Seq<Seq<char>>) -> Option<i64>;

/// Calls `falkordb::QueryResult::get_nodes_created` on a result that holds `stats`.
/// Trusted: the method reads nothing but the statistics lines, so its result is a function
/// of them, named `nodes_created_in`.
#[verifier::external_body]
fn nodes_created(stats: &Vec<String>) -> (r: Option<i64>)
    ensures
        r == nodes_created_in(stats.deep_view()),
{
    let header: Vec<String> = Vec::new();
    falkordb::QueryResult { header: header.into(), data: (), stats: stats.clone() }
        .get_nodes_created()
}

/// Calls `falkordb::QueryResult::get_nodes_deleted` on a result that holds `stats`.
/// Trusted: the method reads nothing but the statistics lines, so its result is a function
/// of them, named `nodes_deleted_in`.
#[verifier::external_body]
fn nodes_deleted(stats: &Vec<String>) -> (r: Option<i64>)
    ensures
        r == nodes_deleted_in(stats.deep_view()),
{
    let header: Vec<String> = Vec::new();
    falkordb::QueryResult { header: header.into(), data: (), stats: stats.clone() }
        .get_nodes_deleted()
}

/// Calls `falkordb::QueryResult::get_relationship_created` on a result that holds `stats`.
/// Trusted: the method reads nothing but the statistics lines, so its result is a function
/// of them, named `relationships_created_in`.
#[verifier::external_body]
fn relationships_created(stats: &Vec<String>) -> (r: Option<i64>)
    ensures
        r == relationships_created_in(stats.deep_view()),
{
    let header: Vec<String> = Vec::new();
    falkordb::QueryResult { header: header.into(), data: (), stats: stats.clone() }
        .get_relationship_created()
}

/// Calls `falkordb::QueryResult::get_relationship_deleted` on a result that holds `stats`.
/// Trusted: the method reads nothing but the statistics lines, so its result is a function
/// of them, named `relationships_deleted_in`.
#[verifier::external_body]
fn relationships_deleted(stats: &Vec<String>) -> (r: Option<i64>)
    ensures
        r == relationships_deleted_in(stats.deep_view()),
{
    let header: Vec<String> = Vec::new();
    falkordb::QueryResult { header: header.into(), data: (), stats: stats.clone() }
        .get_relationship_deleted()
}

/// Calls `falkordb::QueryResult::get_properties_set` on a result that holds `stats`.
/// Trusted: the method reads nothing but the statistics lines, so its result is a function
/// of them, named `properties_set_in`.
#[verifier::external_body]
fn properties_set(stats: &Vec<String>) -> (r: Option<i64>)
    ensures
        r == properties_set_in(stats.deep_view()),
{
    let header: Vec<String> = Vec::new();
    falkordb::QueryResult { header: header.into(), data: (), stats: stats.clone() }
        .get_properties_set()
}

/// The statistics that an outcome with these statistics lines and this execution time
/// holds.
pub open spec fn statistics_of(stats: Seq<Seq<char>>, time: Option<ExecutionTimeView>)
    -> StatisticsView {
    StatisticsView {
        nodes_created: nodes_created_in(stats),
        nodes_deleted: nodes_deleted_in(stats),
        relationships_created: relationships_created_in(stats),
        relationships_deleted: relationships_deleted_in(stats),
        properties_set: properties_set_in(stats),
        execution_time: time,
    }
}

impl QueryOutcome {
    /// The model of the execution time.
    pub open spec fn time(&self) -> Option<ExecutionTimeView> {
        match self.execution_time {
            Some(t) => Some(t@),
            None => None,
        }
    }

    /// The statistics of this outcome: the counts as the collaborator's library reads them
    /// from the statistics lines, and the execution time.
    pub fn statistics(&self) -> (r: Statistics)
        ensures
            r@ == statistics_of(self.stats.deep_view(), self.time()),
    {
        Statistics {
            nodes_created: nodes_created(&self.stats),
            nodes_deleted: nodes_deleted(&self.stats),
            relationships_created: relationships_created(&self.stats),
            relationships_deleted: relationships_deleted(&self.stats),
            properties_set: properties_set(&self.stats),
            execution_time: match &self.execution_time {
                Some(t) => Some(ExecutionTime { millis: t.millis.clone(), number: t.number.clone() }),
                None => None,
            },
        }
    }
}

} // verus!
