//! The row-oriented model that a solver takes: one column per variable, one
//! row per constraint, and what a solver hands back for it.

use vstd::prelude::*;
use crate::scalar::Scalar;

verus! {

/// The direction in which a solver moves the objective.
#[derive(Clone, Copy, Debug, PartialEq, Eq, Structural)]
pub enum Sense {
    /// Make the objective as large as possible.
    Maximise,
    /// Make the objective as small as possible.
    Minimise,
}

/// A column: the objective coefficient of a variable and its bounds.
#[derive(Clone, Copy, Debug, PartialEq, Eq, Structural)]
pub struct Column {
    pub objective: Scalar,
    pub lower: Scalar,
    pub upper: Scalar,
}

/// One entry of a row: a factor on the column with the given index.
#[derive(Clone, Copy, Debug, PartialEq, Eq, Structural)]
pub struct Entry {
    pub column: usize,
    pub factor: Scalar,
}

/// A row: `lower <= sum of factor * column <= upper`.
#[derive(Clone, Debug, PartialEq, Eq)]
pub struct Row {
    pub lower: Scalar,
    pub upper: Scalar,
    pub entries: Vec<Entry>,
}

/// What a row says, with its entries as a sequence.
pub struct RowView {
    pub lower: Scalar,
    pub upper: Scalar,
    pub entries: Seq<Entry>,
}

impl View for Row {
    type V = RowView;

    open spec fn view(&self) -> RowView {
        RowView { lower: self.lower, upper: self.upper, entries: self.entries@ }
    }
}

/// The views of a list of rows, in order.
pub open spec fn row_views(rows: Seq<Row>) -> Seq<RowView> {
    Seq::new(rows.len(), |i: int| rows[i]@)
}

/// Columns and rows, each addressed by its place in the order of addition.
#[derive(Clone, Debug, PartialEq, Eq)]
pub struct RowProblem {
    pub columns: Vec<Column>,
    pub rows: Vec<Row>,
}

/// What a row problem says, with its columns and rows as sequences.
pub struct RowProblemView {
    pub columns: Seq<Column>,
    pub rows: Seq<RowView>,
}

impl View for RowProblem {
    type V = RowProblemView;

    open spec fn view(&self) -> RowProblemView {
        RowProblemView { columns: self.columns@, rows: row_views(self.rows@) }
    }
}

impl RowProblem {
    /// A problem without columns or rows.
    pub fn new() -> (p: RowProblem)
        ensures
            p@.columns.len() == 0,
            p@.rows.len() == 0,
    {
        let p = RowProblem { columns: Vec::new(), rows: Vec::new() };
        assert(p@.rows =~= Seq::empty());
        p
    }

    /// The number of columns.
    pub fn num_cols(&self) -> (n: usize)
        ensures
            n == self@.columns.len(),
    {
        self.columns.len()
    }

    /// The number of rows.
    pub fn num_rows(&self) -> (n: usize)
        ensures
            n == self@.rows.len(),
    {
        self.rows.len()
    }

    /// Appends a column and gives its index: the number of columns before.
    pub fn add_column(&mut self, objective: Scalar, lower: Scalar, upper: Scalar) -> (col: usize)
        ensures
            col == old(self)@.columns.len(),
            final(self)@.columns == old(self)@.columns.push(Column { objective, lower, upper }),
            final(self)@.rows == old(self)@.rows,
    {
        let col: usize = self.columns.len();
        self.columns.push(Column { objective, lower, upper });
        col
    }

    /// Appends a row. No row or column that was there changes.
    pub fn add_row(&mut self, lower: Scalar, upper: Scalar, entries: Vec<Entry>)
        ensures
            final(self)@.columns == old(self)@.columns,
            final(self)@.rows == old(self)@.rows.push(
                RowView { lower, upper, entries: entries@ },
            ),
    {
        self.rows.push(Row { lower, upper, entries });
        assert(row_views(self.rows@) =~= row_views(old(self).rows@).push(
            RowView { lower, upper, entries: entries@ },
        ));
    }
}

/// A row problem together with the direction of its objective: what is
/// handed to a solver.
#[derive(Clone, Debug, PartialEq, Eq)]
pub struct Model {
    pub sense: Sense,
    pub problem: RowProblem,
}

/// How a solver's run ended.
#[derive(Clone, Copy, Debug, PartialEq, Eq, Structural)]
pub enum HighsModelStatus {
    /// The solver has not run.
    NotSet,
    /// The model could not be loaded.
    LoadError,
    /// The model is invalid.
    ModelError,
    /// The phase before solving failed.
    PresolveError,
    /// Solving failed.
    SolveError,
    /// The phase after solving failed.
    PostsolveError,
    /// The model has no column.
    ModelEmpty,
    /// No assignment satisfies every row.
    Infeasible,
    /// The model is unbounded or infeasible; the solver did not tell which.
    UnboundedOrInfeasible,
    /// The objective can be improved without limit.
    Unbounded,
    /// An optimum was found.
    Optimal,
    /// The objective reached its bound.
    ObjectiveBound,
    /// The objective reached its target.
    ObjectiveTarget,
    /// The time limit was reached.
    ReachedTimeLimit,
    /// The iteration limit was reached.
    ReachedIterationLimit,
    /// The solver cannot say how it ended.
    Unknown,
    /// The solution limit was reached.
    ReachedSolutionLimit,
    /// The run was interrupted.
    ReachedInterrupt,
    /// The memory limit was reached.
    ReachedMemoryLimit,
}

/// The values that a solver found: one per column, and one dual value per
/// row.
#[derive(Clone, Debug, PartialEq, Eq)]
pub struct Solution {
    pub columns: Vec<Scalar>,
    pub dual_rows: Vec<Scalar>,
}

/// A model after a solver's run: how the run ended, and the values found.
#[derive(Clone, Debug, PartialEq, Eq)]
pub struct SolvedModel {
    pub status: HighsModelStatus,
    pub solution: Solution,
}

} // verus!
