//! Reading of a solver's result: the classification of its final status,
//! the value of each variable, and the dual value of each constraint,
//! which is copied out of the solver's answer on first demand only.

use vstd::prelude::*;
use crate::model::ConstraintReference;
use crate::model::ResolutionError;
use crate::model::Variable;
use crate::rows::HighsModelStatus;
use crate::rows::Solution;
use crate::rows::SolvedModel;
use crate::scalar::Scalar;

verus! {

/// The name of a status, as it tags a failure.
pub open spec fn status_tag(status: HighsModelStatus) -> &'static str {
    match status {
        HighsModelStatus::NotSet => "NotSet",
        HighsModelStatus::LoadError => "LoadError",
        HighsModelStatus::ModelError => "ModelError",
        HighsModelStatus::PresolveError => "PresolveError",
        HighsModelStatus::SolveError => "SolveError",
        HighsModelStatus::PostsolveError => "PostsolveError",
        HighsModelStatus::ModelEmpty => "ModelEmpty",
        HighsModelStatus::Infeasible => "Infeasible",
        HighsModelStatus::UnboundedOrInfeasible => "UnboundedOrInfeasible",
        HighsModelStatus::Unbounded => "Unbounded",
        HighsModelStatus::Optimal => "Optimal",
        HighsModelStatus::ObjectiveBound => "ObjectiveBound",
        HighsModelStatus::ObjectiveTarget => "ObjectiveTarget",
        HighsModelStatus::ReachedTimeLimit => "ReachedTimeLimit",
        HighsModelStatus::ReachedIterationLimit => "ReachedIterationLimit",
        HighsModelStatus::Unknown => "Unknown",
        HighsModelStatus::ReachedSolutionLimit => "ReachedSolutionLimit",
        HighsModelStatus::ReachedInterrupt => "ReachedInterrupt",
        HighsModelStatus::ReachedMemoryLimit => "ReachedMemoryLimit",
    }
}

/// The error that a status stands for, and `None` for the one status that
/// stands for success: an optimum was found. Every other status is a
/// failure: infeasible, unbounded, or a failure tagged by the status's name.
pub open spec fn status_error(status: HighsModelStatus) -> Option<ResolutionError> {
    match status {
        HighsModelStatus::Optimal => None,
        HighsModelStatus::Infeasible => Some(ResolutionError::Infeasible),
        HighsModelStatus::Unbounded => Some(ResolutionError::Unbounded),
        _ => Some(ResolutionError::Other(status_tag(status))),
    }
}

/// The name of a status.
pub fn status_name(status: HighsModelStatus) -> (tag: &'static str)
    ensures
        tag == status_tag(status),
{
    match status {
        HighsModelStatus::NotSet => "NotSet",
        HighsModelStatus::LoadError => "LoadError",
        HighsModelStatus::ModelError => "ModelError",
        HighsModelStatus::PresolveError => "PresolveError",
        HighsModelStatus::SolveError => "SolveError",
        HighsModelStatus::PostsolveError => "PostsolveError",
        HighsModelStatus::ModelEmpty => "ModelEmpty",
        HighsModelStatus::Infeasible => "Infeasible",
        HighsModelStatus::UnboundedOrInfeasible => "UnboundedOrInfeasible",
        HighsModelStatus::Unbounded => "Unbounded",
        HighsModelStatus::Optimal => "Optimal",
        HighsModelStatus::ObjectiveBound => "ObjectiveBound",
        HighsModelStatus::ObjectiveTarget => "ObjectiveTarget",
        HighsModelStatus::ReachedTimeLimit => "ReachedTimeLimit",
        HighsModelStatus::ReachedIterationLimit => "ReachedIterationLimit",
        HighsModelStatus::Unknown => "Unknown",
        HighsModelStatus::ReachedSolutionLimit => "ReachedSolutionLimit",
        HighsModelStatus::ReachedInterrupt => "ReachedInterrupt",
        HighsModelStatus::ReachedMemoryLimit => "ReachedMemoryLimit",
    }
}

/// The error that a status stands for, if it stands for one.
pub fn classify(status: HighsModelStatus) -> (e: Option<ResolutionError>)
    ensures
        e == status_error(status),
{
    match status {
        HighsModelStatus::Optimal => None,
        HighsModelStatus::Infeasible => Some(ResolutionError::Infeasible),
        HighsModelStatus::Unbounded => Some(ResolutionError::Unbounded),
        _ => Some(ResolutionError::Other(status_name(status))),
    }
}

/// The solution of a problem: the solver's values, and the dual values
/// once they have been asked for.
#[derive(Clone, Debug, PartialEq, Eq)]
pub struct HighsSolution {
    solution: Solution,
    dual_values: Vec<Scalar>,
    acquired: bool,
}

/// What a solution holds.
pub struct HighsSolutionView {
    /// The solver's value of each column.
    pub columns: Seq<Scalar>,
    /// The solver's dual value of each row.
    pub dual_rows: Seq<Scalar>,
    /// The dual values that have been copied out for reading.
    pub dual_values: Seq<Scalar>,
    /// Whether the dual values have been copied out.
    pub acquired: bool,
}

impl HighsSolutionView {
    /// The view of a solution that was just made of the solver's values:
    /// nothing copied out yet.
    pub open spec fn fresh(columns: Seq<Scalar>, dual_rows: Seq<Scalar>) -> HighsSolutionView {
        HighsSolutionView { columns, dual_rows, dual_values: Seq::empty(), acquired: false }
    }

    /// Whether the copied dual values are what the flag says: the solver's
    /// once acquired, none before.
    pub open spec fn wf(self) -> bool {
        if self.acquired {
            self.dual_values == self.dual_rows
        } else {
            self.dual_values.len() == 0
        }
    }

    /// The view after the dual values have been asked for: unchanged where
    /// they had been acquired, else with the solver's dual values copied
    /// out and the flag set.
    pub open spec fn acquire(self) -> HighsSolutionView {
        if self.acquired {
            self
        } else {
            HighsSolutionView {
                columns: self.columns,
                dual_rows: self.dual_rows,
                dual_values: self.dual_rows,
                acquired: true,
            }
        }
    }
}

impl View for HighsSolution {
    type V = HighsSolutionView;

    closed spec fn view(&self) -> HighsSolutionView {
        HighsSolutionView {
            columns: self.solution.columns@,
            dual_rows: self.solution.dual_rows@,
            dual_values: self.dual_values@,
            acquired: self.acquired,
        }
    }
}

/// Whether `outcome` is what a solver's answer resolves to: the error of
/// its status, or for an optimum a fresh solution of its values.
pub open spec fn resolves_to(
    solved: SolvedModel,
    outcome: Result<HighsSolution, ResolutionError>,
) -> bool {
    match status_error(solved.status) {
        Some(e) => outcome == Err::<HighsSolution, ResolutionError>(e),
        None => outcome is Ok && outcome->Ok_0@ == HighsSolutionView::fresh(
            solved.solution.columns@,
            solved.solution.dual_rows@,
        ),
    }
}

/// A copy of a list of scalars.
fn copy_scalars(values: &Vec<Scalar>) -> (copy: Vec<Scalar>)
    ensures
        copy@ == values@,
{
    let mut copy: Vec<Scalar> = Vec::new();
    let n: usize = values.len();
    let mut i: usize = 0;
    while i < n
        invariant
            n == values@.len(),
            i <= n,
            copy@ == values@.take(i as int),
        decreases n - i,
    {
        copy.push(values[i]);
        assert(values@.take(i + 1) =~= values@.take(i as int).push(values@[i as int]));
        i += 1;
    }
    assert(values@.take(n as int) =~= values@);
    copy
}

impl HighsSolution {
    /// Resolves a solver's answer: an error for every status but an
    /// optimum, and for an optimum the solution, with no dual value copied
    /// out yet.
    pub fn resolve(solved: SolvedModel) -> (outcome: Result<HighsSolution, ResolutionError>)
        ensures
            resolves_to(solved, outcome),
            outcome is Ok ==> outcome->Ok_0@.wf(),
    {
        match classify(solved.status) {
            Some(e) => Err(e),
            None => Ok(
                HighsSolution {
                    solution: solved.solution,
                    dual_values: Vec::new(),
                    acquired: false,
                },
            ),
        }
    }

    /// The solver's values, as they came.
    pub fn into_inner(self) -> (inner: Solution)
        ensures
            inner.columns@ == self@.columns,
            inner.dual_rows@ == self@.dual_rows,
    {
        self.solution
    }

    /// The number of variables that the solution has a value for.
    pub fn num_values(&self) -> (n: usize)
        ensures
            n == self@.columns.len(),
    {
        self.solution.columns.len()
    }

    /// The number of dual values that have been copied out.
    pub fn num_duals(&self) -> (n: usize)
        ensures
            n == self@.dual_values.len(),
    {
        self.dual_values.len()
    }

    /// Whether the dual values have been copied out.
    pub fn has_duals(&self) -> (b: bool)
        ensures
            b == self@.acquired,
    {
        self.acquired
    }

    /// The value of a variable: the solver's value of the column with the
    /// variable's index.
    pub fn value(&self, variable: Variable) -> (v: Scalar)
        requires
            variable.index < self@.columns.len(),
        ensures
            v == self@.columns[variable.index as int],
    {
        self.solution.columns[variable.index()]
    }

    /// The dual value of a constraint: the copied value at the
    /// constraint's index. The dual values must have been asked for.
    pub fn dual(&self, constraint: ConstraintReference) -> (d: Scalar)
        requires
            self@.acquired,
            constraint.index < self@.dual_values.len(),
        ensures
            d == self@.dual_values[constraint.index as int],
    {
        self.dual_values[constraint.index]
    }

    /// Makes the dual values readable. The first call copies them out of
    /// the solver's answer; every later call changes nothing.
    pub fn get_dual(&mut self) -> (this: &Self)
        ensures
            final(self)@ == old(self)@.acquire(),
            this@ == final(self)@,
    {
        if !self.acquired {
            self.dual_values = copy_scalars(&self.solution.dual_rows);
            self.acquired = true;
        }
        self
    }
}

/// Asking for the dual values a second time changes nothing, whatever the
/// solution held before the first time.
pub proof fn lemma_acquire_idempotent(v: HighsSolutionView)
    ensures
        v.acquire().acquire() == v.acquire(),
        v.acquire().acquired,
        v.acquire().columns == v.columns,
        v.acquire().dual_rows == v.dual_rows,
{
}

/// Asking for the dual values keeps a solution well-formed and leaves it
/// holding the solver's dual values.
pub proof fn lemma_acquire_wf(v: HighsSolutionView)
    requires
        v.wf(),
    ensures
        v.acquire().wf(),
        v.acquire().dual_values == v.dual_rows,
{
}

/// Every status is either the success or exactly one failure: infeasible,
/// unbounded, or a failure tagged by the status's own name.
pub proof fn lemma_status_partition(status: HighsModelStatus)
    ensures
        status_error(status) is None <==> status == HighsModelStatus::Optimal,
        status_error(status) == Some(ResolutionError::Infeasible) <==> status
            == HighsModelStatus::Infeasible,
        status_error(status) == Some(ResolutionError::Unbounded) <==> status
            == HighsModelStatus::Unbounded,
        status != HighsModelStatus::Optimal && status != HighsModelStatus::Infeasible && status
            != HighsModelStatus::Unbounded ==> status_error(status) == Some(
            ResolutionError::Other(status_tag(status)),
        ),
{
}

} // verus!
