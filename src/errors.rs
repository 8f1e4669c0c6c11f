//! The failures of a metric computation, one kind per stage.
use vstd::prelude::*;

use crate::sql::{append_decimal, decimal};
use crate::transformers::ForeignFrom;

verus! {

/// A clause that was malformed when it was added to a builder.
#[derive(Clone, Copy, Debug, PartialEq, Eq, Structural)]
pub enum ClauseError {
    /// The alias is already taken by the select expression at `existing`.
    DuplicateAlias { existing: usize },
    /// A filter or grouping key was given an empty column name.
    EmptyColumn,
}

/// A builder that could not be compiled for the chosen backend. Each
/// variant names the clause at fault by its position in its list.
#[derive(Clone, Copy, Debug, PartialEq, Eq, Structural)]
pub enum QueryBuildingError {
    NoSelectColumns,
    /// The select expression names the reserved bucket key.
    ReservedName { select: usize },
    UnrenderableSelect { select: usize },
    UnrenderableFilter { filter: usize },
    UnrenderableGroupBy { group_by: usize },
}

/// `prefix`, the position, then `suffix`.
pub open spec fn positioned(prefix: Seq<char>, k: usize, suffix: Seq<char>) -> Seq<char> {
    prefix + decimal(k as nat) + suffix
}

fn render_positioned(prefix: &str, k: usize, suffix: &str) -> (r: String)
    ensures
        r@ == positioned(prefix@, k, suffix@),
{
    let mut out = String::from_str(prefix);
    append_decimal(&mut out, k as u64);
    out.append(suffix);
    out
}

impl QueryBuildingError {
    /// Which clause failed, in words.
    pub open spec fn spec_describe(self) -> Seq<char> {
        match self {
            QueryBuildingError::NoSelectColumns => "no select expression was added"@,
            QueryBuildingError::ReservedName { select } => positioned(
                "select expression "@,
                select,
                " names the reserved bucket key"@,
            ),
            QueryBuildingError::UnrenderableSelect { select } => positioned(
                "select expression "@,
                select,
                " cannot be rendered for this backend"@,
            ),
            QueryBuildingError::UnrenderableFilter { filter } => positioned(
                "filter "@,
                filter,
                " cannot be rendered for this backend"@,
            ),
            QueryBuildingError::UnrenderableGroupBy { group_by } => positioned(
                "grouping key "@,
                group_by,
                " cannot be rendered for this backend"@,
            ),
        }
    }

    pub fn describe(&self) -> (r: String)
        ensures
            r@ == self.spec_describe(),
    {
        match self {
            QueryBuildingError::NoSelectColumns => String::from_str("no select expression was added"),
            QueryBuildingError::ReservedName { select } => render_positioned(
                "select expression ",
                *select,
                " names the reserved bucket key",
            ),
            QueryBuildingError::UnrenderableSelect { select } => render_positioned(
                "select expression ",
                *select,
                " cannot be rendered for this backend",
            ),
            QueryBuildingError::UnrenderableFilter { filter } => render_positioned(
                "filter ",
                *filter,
                " cannot be rendered for this backend",
            ),
            QueryBuildingError::UnrenderableGroupBy { group_by } => render_positioned(
                "grouping key ",
                *group_by,
                " cannot be rendered for this backend",
            ),
        }
    }
}

/// What the backend reported when it could not run a query.
#[derive(Clone, Debug)]
pub struct ExecutionError {
    pub message: String,
}

/// The column of a result row whose value had the wrong shape.
#[derive(Clone, Copy, Debug, PartialEq, Eq, Structural, Hash)]
pub enum RowColumn {
    Count,
    TimeBucket,
}

/// A returned row that could not be read as a typed row.
#[derive(Clone, Copy, Debug, PartialEq, Eq, Structural)]
pub struct PostProcessingError {
    pub row: usize,
    pub column: RowColumn,
}

/// The failure of one metric computation, tagged with the stage that failed.
#[derive(Clone, Debug)]
pub enum MetricsError {
    ClauseError(ClauseError),
    QueryBuildingError(QueryBuildingError),
    QueryExecutionFailure(ExecutionError),
    PostProcessingFailure(PostProcessingError),
}

impl ForeignFrom<ClauseError> for MetricsError {
    open spec fn converts(from: ClauseError, to: MetricsError) -> bool {
        to == MetricsError::ClauseError(from)
    }

    fn foreign_from(from: ClauseError) -> (r: MetricsError) {
        MetricsError::ClauseError(from)
    }
}

impl ForeignFrom<QueryBuildingError> for MetricsError {
    open spec fn converts(from: QueryBuildingError, to: MetricsError) -> bool {
        to == MetricsError::QueryBuildingError(from)
    }

    fn foreign_from(from: QueryBuildingError) -> (r: MetricsError) {
        MetricsError::QueryBuildingError(from)
    }
}

impl ForeignFrom<ExecutionError> for MetricsError {
    open spec fn converts(from: ExecutionError, to: MetricsError) -> bool {
        to == MetricsError::QueryExecutionFailure(from)
    }

    fn foreign_from(from: ExecutionError) -> (r: MetricsError) {
        MetricsError::QueryExecutionFailure(from)
    }
}

impl ForeignFrom<PostProcessingError> for MetricsError {
    open spec fn converts(from: PostProcessingError, to: MetricsError) -> bool {
        to == MetricsError::PostProcessingFailure(from)
    }

    fn foreign_from(from: PostProcessingError) -> (r: MetricsError) {
        MetricsError::PostProcessingFailure(from)
    }
}

} // verus!
