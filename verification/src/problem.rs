//! The builder: a column for each variable when the problem is taken up,
//! a row for each constraint as it arrives, and the hand-over to a solver.

use vstd::prelude::*;
use crate::model::coefficient_in;
use crate::model::distinct_variables;
use crate::model::lemma_coefficient_absent;
use crate::model::lemma_coefficient_present;
use crate::model::lemma_coefficient_single;
use crate::model::mentions;
use crate::model::terms_within;
use crate::model::Constraint;
use crate::model::ConstraintReference;
use crate::model::ObjectiveDirection;
use crate::model::ResolutionError;
use crate::model::Term;
use crate::model::UnsolvedProblem;
use crate::model::Variable;
use crate::rows::Column;
use crate::rows::Entry;
use crate::rows::Model;
use crate::rows::RowProblem;
use crate::rows::RowView;
use crate::rows::Sense;
use crate::rows::SolvedModel;
use crate::scalar::Scalar;
use crate::scalar::NEG_INFINITY_BITS;
use crate::solution::resolves_to;
use crate::solution::HighsSolution;

verus! {

/// The solver's sense for a direction of the objective.
pub open spec fn sense_of(direction: ObjectiveDirection) -> Sense {
    match direction {
        ObjectiveDirection::Maximisation => Sense::Maximise,
        ObjectiveDirection::Minimisation => Sense::Minimise,
    }
}

/// The column of the variable declared at place `i`: its coefficient in
/// the objective, and its bounds.
pub open spec fn column_of(problem: UnsolvedProblem, i: int) -> Column {
    Column {
        objective: coefficient_in(problem.objective.terms@, i as usize),
        lower: problem.variables@[i].min,
        upper: problem.variables@[i].max,
    }
}

/// The columns of a problem: that of each variable, in declaration order.
pub open spec fn columns_of(problem: UnsolvedProblem) -> Seq<Column> {
    Seq::new(problem.variables@.len(), |i: int| column_of(problem, i))
}

/// The entries of the row of a list of terms: one for each term whose
/// coefficient is not zero, in the order of the terms, on the column with
/// the index of the term's variable.
pub open spec fn row_entries(terms: Seq<Term>) -> Seq<Entry>
    decreases terms.len(),
{
    if terms.len() == 0 {
        Seq::empty()
    } else if terms.last().coefficient.zero_valued() {
        row_entries(terms.drop_last())
    } else {
        row_entries(terms.drop_last()).push(
            Entry { column: terms.last().variable.index, factor: terms.last().coefficient },
        )
    }
}

/// The row of a constraint on an expression with constant `k`: the upper
/// bound is `-k`; the lower bound is `-k` too for an equality, and
/// negative infinity otherwise.
pub open spec fn encoded_row(constraint: Constraint) -> RowView {
    RowView {
        lower: if constraint.is_equality {
            constraint.expression.constant.negated()
        } else {
            Scalar { bits: NEG_INFINITY_BITS }
        },
        upper: constraint.expression.constant.negated(),
        entries: row_entries(constraint.expression.terms@),
    }
}

/// A problem in the solver's form, to which constraints can be added.
#[derive(Clone, Debug, PartialEq, Eq)]
pub struct HighsProblem {
    sense: Sense,
    highs_problem: RowProblem,
    columns: Vec<usize>,
    n_constraints: usize,
}

impl HighsProblem {
    /// The direction of the objective.
    pub closed spec fn sense(&self) -> Sense {
        self.sense
    }

    /// The columns, in the order of their indices.
    pub closed spec fn columns(&self) -> Seq<Column> {
        self.highs_problem@.columns
    }

    /// The rows, in the order of their indices.
    pub closed spec fn rows(&self) -> Seq<RowView> {
        self.highs_problem@.rows
    }

    /// The column index kept for each variable, by the variable's index.
    pub closed spec fn handles(&self) -> Seq<usize> {
        self.columns@
    }

    /// The number of constraints counted so far.
    pub closed spec fn n_constraints(&self) -> usize {
        self.n_constraints
    }

    /// The invariant: each variable's column has the variable's index, the
    /// count of constraints is the number of rows, and every entry of a row
    /// stands on a column that exists.
    pub open spec fn wf(&self) -> bool {
        &&& self.handles().len() == self.columns().len()
        &&& forall|i: int| 0 <= i < self.handles().len() ==> #[trigger] self.handles()[i] == i
        &&& self.n_constraints() == self.rows().len()
        &&& forall|r: int, e: int|
            0 <= r < self.rows().len() && 0 <= e < self.rows()[r].entries.len() ==> (
            #[trigger] self.rows()[r].entries[e]).column < self.columns().len()
    }

    /// Whether `model` is this problem as it is handed to a solver.
    pub open spec fn hands_over(&self, model: Model) -> bool {
        &&& model.sense == self.sense()
        &&& model.problem@.columns == self.columns()
        &&& model.problem@.rows == self.rows()
    }

    /// The model to hand to a solver: the columns and rows as they were
    /// added, and the direction of the objective.
    pub fn into_inner(self) -> (model: Model)
        ensures
            self.hands_over(model),
    {
        Model { sense: self.sense, problem: self.highs_problem }
    }

    /// The number of columns: one for each variable.
    pub fn num_columns(&self) -> (n: usize)
        ensures
            n == self.columns().len(),
    {
        self.highs_problem.num_cols()
    }

    /// The number of constraints added so far.
    pub fn num_constraints(&self) -> (n: usize)
        ensures
            n == self.n_constraints(),
    {
        self.n_constraints
    }

    /// Whether a constraint names variables of this problem only.
    pub fn accepts(&self, constraint: &Constraint) -> (b: bool)
        ensures
            b == terms_within(constraint.expression.terms@, self.columns().len() as int),
    {
        constraint.expression.within(self.highs_problem.num_cols())
    }

    /// Appends the row of a constraint. Columns and earlier rows stay as
    /// they are.
    pub fn put_constraint(&mut self, constraint: Constraint)
        requires
            old(self).wf(),
            terms_within(constraint.expression.terms@, old(self).columns().len() as int),
        ensures
            final(self).wf(),
            final(self).sense() == old(self).sense(),
            final(self).columns() == old(self).columns(),
            final(self).handles() == old(self).handles(),
            final(self).rows() == old(self).rows().push(encoded_row(constraint)),
            final(self).n_constraints() == old(self).n_constraints() + 1,
    {
        let upper_bound = constraint.expression.constant().neg();
        let n: usize = constraint.expression.terms.len();
        let mut factors: Vec<Entry> = Vec::new();
        let mut i: usize = 0;
        while i < n
            invariant
                n == constraint.expression.terms@.len(),
                i <= n,
                self.wf(),
                terms_within(constraint.expression.terms@, self.columns().len() as int),
                factors@ == row_entries(constraint.expression.terms@.take(i as int)),
                forall|e: int|
                    0 <= e < factors@.len() ==> (#[trigger] factors@[e]).column
                        < self.columns().len(),
            decreases n - i,
        {
            let term = constraint.expression.terms[i];
            assert(constraint.expression.terms@.take(i + 1).drop_last()
                =~= constraint.expression.terms@.take(i as int));
            assert(constraint.expression.terms@.take(i + 1).last() == term);
            if !term.coefficient.is_zero() {
                let column: usize = self.columns[term.variable.index()];
                factors.push(Entry { column, factor: term.coefficient });
            }
            i += 1;
        }
        assert(constraint.expression.terms@.take(n as int) =~= constraint.expression.terms@);
        if constraint.is_equality {
            self.highs_problem.add_row(upper_bound, upper_bound, factors);
        } else {
            self.highs_problem.add_row(Scalar::neg_infinity(), upper_bound, factors);
        }
        let rows: usize = self.highs_problem.num_rows();
        assert(rows == self.n_constraints + 1);
        self.n_constraints += 1;
    }

    /// Adds a constraint and gives its reference: the number of constraints
    /// added before it, which is the index of its row.
    pub fn add_constraint(&mut self, c: Constraint) -> (reference: ConstraintReference)
        requires
            old(self).wf(),
            terms_within(c.expression.terms@, old(self).columns().len() as int),
        ensures
            reference.index == old(self).n_constraints(),
            reference.index == old(self).rows().len(),
            final(self).wf(),
            final(self).sense() == old(self).sense(),
            final(self).columns() == old(self).columns(),
            final(self).handles() == old(self).handles(),
            final(self).rows() == old(self).rows().push(encoded_row(c)),
            final(self).rows()[reference.index as int] == encoded_row(c),
            final(self).n_constraints() == old(self).n_constraints() + 1,
    {
        self.put_constraint(c);
        ConstraintReference { index: self.n_constraints - 1 }
    }

    /// Hands the problem to a solver and resolves its answer: an error for
    /// every final status but an optimum, a solution for an optimum.
    pub fn solve<B: FnOnce(Model) -> SolvedModel>(self, backend: B) -> (outcome: Result<
        HighsSolution,
        ResolutionError,
    >)
        requires
            forall|model: Model| self.hands_over(model) ==> backend.requires((model,)),
        ensures
            exists|model: Model, solved: SolvedModel|
                self.hands_over(model) && backend.ensures((model,), solved) && resolves_to(
                    solved,
                    outcome,
                ),
            outcome is Ok ==> outcome->Ok_0@.wf(),
    {
        let model = self.into_inner();
        let solved = backend(model);
        HighsSolution::resolve(solved)
    }
}

/// Takes up a problem for solving: one column for each variable, in
/// declaration order, and no row.
pub fn highs(to_solve: UnsolvedProblem) -> (problem: HighsProblem)
    ensures
        problem.wf(),
        problem.sense() == sense_of(to_solve.direction),
        problem.columns() == columns_of(to_solve),
        problem.columns().len() == to_solve.variables@.len(),
        forall|i: int|
            0 <= i < to_solve.variables@.len() ==> #[trigger] problem.columns()[i] == column_of(
                to_solve,
                i,
            ) && problem.handles()[i] == i,
        problem.rows() == Seq::<RowView>::empty(),
        problem.n_constraints() == 0,
{
    let mut highs_problem = RowProblem::new();
    let sense = match to_solve.direction {
        ObjectiveDirection::Maximisation => Sense::Maximise,
        ObjectiveDirection::Minimisation => Sense::Minimise,
    };
    let n: usize = to_solve.variables.len();
    let mut columns: Vec<usize> = Vec::with_capacity(n);
    let mut i: usize = 0;
    while i < n
        invariant
            n == to_solve.variables@.len(),
            i <= n,
            columns@.len() == i,
            forall|j: int| 0 <= j < i ==> #[trigger] columns@[j] == j,
            highs_problem@.columns == Seq::new(i as nat, |j: int| column_of(to_solve, j)),
            highs_problem@.rows.len() == 0,
        decreases n - i,
    {
        let var = Variable::at(i);
        let def = to_solve.variables[i];
        let col_factor = to_solve.objective.coefficient(var);
        let col: usize = highs_problem.add_column(col_factor, def.min, def.max);
        columns.push(col);
        assert(highs_problem@.columns =~= Seq::new(
            (i + 1) as nat,
            |j: int| column_of(to_solve, j),
        ));
        i += 1;
    }
    assert(highs_problem@.rows =~= Seq::<RowView>::empty());
    HighsProblem { sense, highs_problem, columns, n_constraints: 0 }
}

/// The rows of a problem that had the rows `before` once the constraints
/// of `added` have been added to it, one after the other.
pub open spec fn rows_after(before: Seq<RowView>, added: Seq<Constraint>) -> Seq<RowView>
    decreases added.len(),
{
    if added.len() == 0 {
        before
    } else {
        rows_after(before, added.drop_last()).push(encoded_row(added.last()))
    }
}

/// Constraints added one after the other are numbered in that order,
/// without a gap: the constraint at place `k` of `added` finds
/// `before.len() + k` rows, which is the index it is given; its row stands
/// at that index whatever is added later; and the rows that were there
/// before keep their indices.
pub proof fn lemma_references_in_order(before: Seq<RowView>, added: Seq<Constraint>, k: int)
    requires
        0 <= k < added.len(),
    ensures
        rows_after(before, added).len() == before.len() + added.len(),
        rows_after(before, added.take(k)).len() == before.len() + k,
        rows_after(before, added)[before.len() + k] == encoded_row(added[k]),
        forall|j: int| 0 <= j < before.len() ==> rows_after(before, added)[j] == before[j],
    decreases added.len(),
{
    lemma_rows_after_len(before, added);
    lemma_rows_after_len(before, added.take(k));
    let fewer = added.drop_last();
    lemma_rows_after_len(before, fewer);
    if k < added.len() - 1 {
        lemma_references_in_order(before, fewer, k);
        assert(fewer[k] == added[k]);
    } else if fewer.len() > 0 {
        lemma_references_in_order(before, fewer, 0);
    }
}

/// Adding constraints adds as many rows.
pub proof fn lemma_rows_after_len(before: Seq<RowView>, added: Seq<Constraint>)
    ensures
        rows_after(before, added).len() == before.len() + added.len(),
    decreases added.len(),
{
    if added.len() > 0 {
        lemma_rows_after_len(before, added.drop_last());
    }
}

/// The constraint can be read back from its row. The negated upper bound
/// is the constant of the expression. The row of an equality is fixed at
/// minus the constant; the row of an inequality has minus the constant as
/// its upper bound and no lower bound.
pub proof fn lemma_encoding_round_trip(constraint: Constraint)
    ensures
        encoded_row(constraint).upper.negated() == constraint.expression.constant,
        encoded_row(constraint).upper == constraint.expression.constant.negated(),
        constraint.is_equality ==> encoded_row(constraint).lower == encoded_row(constraint).upper,
        !constraint.is_equality ==> encoded_row(constraint).lower.bits == NEG_INFINITY_BITS,
{
}

/// A row is sparse: each of its entries carries the coefficient, not
/// zero, of a term of the expression, on the column of that term's
/// variable; and it has at most one entry for each term.
pub proof fn lemma_row_entries_sparse(terms: Seq<Term>)
    ensures
        row_entries(terms).len() <= terms.len(),
        forall|e: int|
            0 <= e < row_entries(terms).len() ==> {
                let entry = #[trigger] row_entries(terms)[e];
                &&& !entry.factor.zero_valued()
                &&& exists|i: int|
                    0 <= i < terms.len() && (#[trigger] terms[i]).variable.index == entry.column
                        && terms[i].coefficient == entry.factor
            },
    decreases terms.len(),
{
    if terms.len() > 0 {
        let fewer = terms.drop_last();
        lemma_row_entries_sparse(fewer);
        assert forall|e: int| 0 <= e < row_entries(terms).len() implies {
            let entry = #[trigger] row_entries(terms)[e];
            &&& !entry.factor.zero_valued()
            &&& exists|i: int|
                0 <= i < terms.len() && (#[trigger] terms[i]).variable.index == entry.column
                    && terms[i].coefficient == entry.factor
        } by {
            let entry = row_entries(terms)[e];
            if e < row_entries(fewer).len() {
                assert(entry == row_entries(fewer)[e]);
                let i = choose|i: int|
                    0 <= i < fewer.len() && (#[trigger] fewer[i]).variable.index == entry.column
                        && fewer[i].coefficient == entry.factor;
                assert(terms[i] == fewer[i]);
            } else {
                assert(terms[terms.len() - 1] == terms.last());
            }
        }
    }
}

/// Where no coefficient is zero, the row has one entry for each term, in
/// the order of the terms.
pub proof fn lemma_row_entries_dense(terms: Seq<Term>)
    requires
        forall|i: int| 0 <= i < terms.len() ==> !(#[trigger] terms[i]).coefficient.zero_valued(),
    ensures
        row_entries(terms).len() == terms.len(),
        forall|i: int|
            0 <= i < terms.len() ==> #[trigger] row_entries(terms)[i] == (Entry {
                column: terms[i].variable.index,
                factor: terms[i].coefficient,
            }),
    decreases terms.len(),
{
    if terms.len() > 0 {
        let fewer = terms.drop_last();
        assert forall|i: int| 0 <= i < fewer.len() implies !(
        #[trigger] fewer[i]).coefficient.zero_valued() by {
            assert(fewer[i] == terms[i]);
        }
        lemma_row_entries_dense(fewer);
        assert(!terms[terms.len() - 1].coefficient.zero_valued());
        assert forall|i: int| 0 <= i < terms.len() implies #[trigger] row_entries(terms)[i]
            == (Entry { column: terms[i].variable.index, factor: terms[i].coefficient }) by {
            if i < fewer.len() {
                assert(row_entries(terms)[i] == row_entries(fewer)[i]);
                assert(fewer[i] == terms[i]);
            }
        }
    }
}

/// Every term whose coefficient is not zero has its entry in the row.
pub proof fn lemma_row_entries_cover(terms: Seq<Term>, i: int) -> (e: int)
    requires
        0 <= i < terms.len(),
        !terms[i].coefficient.zero_valued(),
    ensures
        0 <= e < row_entries(terms).len(),
        row_entries(terms)[e] == (Entry {
            column: terms[i].variable.index,
            factor: terms[i].coefficient,
        }),
    decreases terms.len(),
{
    let fewer = terms.drop_last();
    if i == terms.len() - 1 {
        row_entries(fewer).len() as int
    } else {
        assert(fewer[i] == terms[i]);
        let e = lemma_row_entries_cover(fewer, i);
        assert(row_entries(terms)[e] == row_entries(fewer)[e]);
        e
    }
}

/// Where no variable is named twice, the row says what the expression
/// says: each entry carries the coefficient that the expression gives the
/// variable of its column, and every variable with a coefficient other
/// than zero has an entry.
pub proof fn lemma_row_entries_agree(terms: Seq<Term>)
    requires
        distinct_variables(terms),
    ensures
        forall|e: int|
            0 <= e < row_entries(terms).len() ==> coefficient_in(
                terms,
                (#[trigger] row_entries(terms)[e]).column,
            ) == row_entries(terms)[e].factor,
        forall|index: usize|
            !(#[trigger] coefficient_in(terms, index)).zero_valued() ==> exists|e: int|
                0 <= e < row_entries(terms).len() && #[trigger] row_entries(terms)[e] == (Entry {
                    column: index,
                    factor: coefficient_in(terms, index),
                }),
{
    lemma_row_entries_sparse(terms);
    assert forall|e: int| 0 <= e < row_entries(terms).len() implies coefficient_in(
        terms,
        (#[trigger] row_entries(terms)[e]).column,
    ) == row_entries(terms)[e].factor by {
        let entry = row_entries(terms)[e];
        let i = choose|i: int|
            0 <= i < terms.len() && (#[trigger] terms[i]).variable.index == entry.column
                && terms[i].coefficient == entry.factor;
        assert forall|k: int| 0 <= k < terms.len() && k != i implies (
        #[trigger] terms[k]).variable.index != terms[i].variable.index by {
            if k < i {
                assert(terms[k].variable.index != terms[i].variable.index);
            } else {
                assert(terms[i].variable.index != terms[k].variable.index);
            }
        }
        lemma_coefficient_single(terms, i);
    }
    assert forall|index: usize|
        !(#[trigger] coefficient_in(terms, index)).zero_valued() implies exists|e: int|
        0 <= e < row_entries(terms).len() && #[trigger] row_entries(terms)[e] == (Entry {
            column: index,
            factor: coefficient_in(terms, index),
        }) by {
        if mentions(terms, index) {
            let at = lemma_coefficient_present(terms, index);
            let e = lemma_row_entries_cover(terms, at);
            assert(row_entries(terms)[e] == (Entry {
                column: index,
                factor: coefficient_in(terms, index),
            }));
        } else {
            lemma_coefficient_absent(terms, index);
        }
    }
}

} // verus!
