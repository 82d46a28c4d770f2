//! The abstract linear program: variables with bounds, a linear objective
//! and linear constraints in canonical form.

use vstd::prelude::*;
use crate::scalar::Scalar;
use crate::scalar::ZERO_BITS;

verus! {

/// A handle on a variable of a problem: its place in declaration order.
#[derive(Clone, Copy, Debug, PartialEq, Eq, Structural)]
pub struct Variable {
    pub index: usize,
}

impl Variable {
    /// The handle of the variable declared at the given place.
    pub fn at(index: usize) -> (v: Variable)
        ensures
            v.index == index,
    {
        Variable { index }
    }

    /// The variable's place in declaration order, counted from zero.
    pub fn index(&self) -> (i: usize)
        ensures
            i == self.index,
    {
        self.index
    }
}

/// The interval that a variable may range over, both ends included.
#[derive(Clone, Copy, Debug, PartialEq, Eq, Structural)]
pub struct VariableDefinition {
    pub min: Scalar,
    pub max: Scalar,
}

/// Whether the objective is to be made large or small.
#[derive(Clone, Copy, Debug, PartialEq, Eq, Structural)]
pub enum ObjectiveDirection {
    /// The objective is to be made large.
    Maximisation,
    /// The objective is to be made small.
    Minimisation,
}

/// One summand of a linear expression: a coefficient times a variable.
#[derive(Clone, Copy, Debug, PartialEq, Eq, Structural)]
pub struct Term {
    pub variable: Variable,
    pub coefficient: Scalar,
}

/// A linear expression: the sum of its terms and of a constant.
#[derive(Clone, Debug, PartialEq, Eq)]
pub struct Expression {
    pub terms: Vec<Term>,
    pub constant: Scalar,
}

/// A constraint in canonical form: `expression <= 0`, or `expression = 0`
/// where `is_equality` is set.
#[derive(Clone, Debug, PartialEq, Eq)]
pub struct Constraint {
    pub expression: Expression,
    pub is_equality: bool,
}

/// A handle on a constraint of a problem: its place in insertion order.
#[derive(Clone, Copy, Debug, PartialEq, Eq, Structural)]
pub struct ConstraintReference {
    pub index: usize,
}

/// A problem before any constraint: variables in declaration order, and an
/// objective with its direction.
#[derive(Clone, Debug, PartialEq, Eq)]
pub struct UnsolvedProblem {
    pub objective: Expression,
    pub direction: ObjectiveDirection,
    pub variables: Vec<VariableDefinition>,
}

/// Why a problem has no solution to hand out.
#[derive(Clone, Copy, Debug, PartialEq, Eq)]
pub enum ResolutionError {
    /// The objective can be improved without limit.
    Unbounded,
    /// No assignment satisfies every constraint.
    Infeasible,
    /// The solver failed; the tag says in which way.
    Other(&'static str),
}

/// The coefficient that a list of terms gives the variable at `index`:
/// that of the last term naming it, and positive zero where none does.
pub open spec fn coefficient_in(terms: Seq<Term>, index: usize) -> Scalar
    decreases terms.len(),
{
    if terms.len() == 0 {
        Scalar { bits: ZERO_BITS }
    } else if terms.last().variable.index == index {
        terms.last().coefficient
    } else {
        coefficient_in(terms.drop_last(), index)
    }
}

/// Whether some term of the list names the variable at `index`.
pub open spec fn mentions(terms: Seq<Term>, index: usize) -> bool {
    exists|i: int| 0 <= i < terms.len() && (#[trigger] terms[i]).variable.index == index
}

/// Whether no two terms of the list name the same variable.
pub open spec fn distinct_variables(terms: Seq<Term>) -> bool {
    forall|i: int, j: int|
        0 <= i < j < terms.len() ==> (#[trigger] terms[i]).variable.index != (
        #[trigger] terms[j]).variable.index
}

/// Whether every term of the list names a variable below `limit`.
pub open spec fn terms_within(terms: Seq<Term>, limit: int) -> bool {
    forall|i: int| 0 <= i < terms.len() ==> (#[trigger] terms[i]).variable.index < limit
}

impl Expression {
    /// The coefficient of a variable in the expression.
    pub open spec fn spec_coefficient(&self, variable: Variable) -> Scalar {
        coefficient_in(self.terms@, variable.index)
    }

    /// The coefficient of a variable in the expression, positive zero for a
    /// variable that the expression does not name.
    pub fn coefficient(&self, variable: Variable) -> (c: Scalar)
        ensures
            c == self.spec_coefficient(variable),
    {
        let mut found = Scalar::zero();
        let n: usize = self.terms.len();
        let mut i: usize = 0;
        while i < n
            invariant
                n == self.terms@.len(),
                i <= n,
                found == coefficient_in(self.terms@.take(i as int), variable.index),
            decreases n - i,
        {
            let term = self.terms[i];
            assert(self.terms@.take(i + 1).drop_last() =~= self.terms@.take(i as int));
            if term.variable.index == variable.index {
                found = term.coefficient;
            }
            i += 1;
        }
        assert(self.terms@.take(n as int) =~= self.terms@);
        found
    }

    /// The constant of the expression.
    pub fn constant(&self) -> (k: Scalar)
        ensures
            k == self.constant,
    {
        self.constant
    }

    /// Whether every term names a variable below `limit`.
    pub fn within(&self, limit: usize) -> (b: bool)
        ensures
            b == terms_within(self.terms@, limit as int),
    {
        let n: usize = self.terms.len();
        let mut i: usize = 0;
        while i < n
            invariant
                n == self.terms@.len(),
                i <= n,
                terms_within(self.terms@.take(i as int), limit as int),
            decreases n - i,
        {
            if self.terms[i].variable.index >= limit {
                return false;
            }
            assert forall|j: int| 0 <= j < i + 1 implies (#[trigger] self.terms@.take(
                i + 1,
            )[j]).variable.index < limit by {
                if j < i {
                    assert(self.terms@.take(i + 1)[j] == self.terms@.take(i as int)[j]);
                }
            }
            i += 1;
        }
        assert(self.terms@.take(n as int) =~= self.terms@);
        true
    }
}

/// A variable that no term names has the coefficient positive zero.
pub proof fn lemma_coefficient_absent(terms: Seq<Term>, index: usize)
    requires
        !mentions(terms, index),
    ensures
        coefficient_in(terms, index) == (Scalar { bits: ZERO_BITS }),
    decreases terms.len(),
{
    if terms.len() > 0 {
        assert(terms[terms.len() - 1].variable.index != index);
        let fewer = terms.drop_last();
        assert forall|i: int| 0 <= i < fewer.len() implies (#[trigger] fewer[i]).variable.index
            != index by {
            assert(terms[i].variable.index != index);
        }
        lemma_coefficient_absent(fewer, index);
    }
}

/// A variable that some term names has the coefficient of the last term
/// naming it.
pub proof fn lemma_coefficient_present(terms: Seq<Term>, index: usize) -> (at: int)
    requires
        mentions(terms, index),
    ensures
        0 <= at < terms.len(),
        terms[at].variable.index == index,
        coefficient_in(terms, index) == terms[at].coefficient,
        forall|i: int| at < i < terms.len() ==> (#[trigger] terms[i]).variable.index != index,
    decreases terms.len(),
{
    let last = terms.len() - 1;
    if terms[last].variable.index == index {
        last
    } else {
        let i = choose|i: int|
            0 <= i < terms.len() && (#[trigger] terms[i]).variable.index == index;
        assert(terms.drop_last()[i] == terms[i]);
        let at = lemma_coefficient_present(terms.drop_last(), index);
        assert(terms.drop_last()[at] == terms[at]);
        assert forall|j: int| at < j < terms.len() implies (#[trigger] terms[j]).variable.index
            != index by {
            if j < last {
                assert(terms.drop_last()[j] == terms[j]);
            }
        }
        at
    }
}

/// A variable that exactly one term names has that term's coefficient.
pub proof fn lemma_coefficient_single(terms: Seq<Term>, at: int)
    requires
        0 <= at < terms.len(),
        forall|i: int| 0 <= i < terms.len() && i != at ==> (#[trigger] terms[i]).variable.index
            != terms[at].variable.index,
    ensures
        coefficient_in(terms, terms[at].variable.index) == terms[at].coefficient,
    decreases terms.len(),
{
    if at < terms.len() - 1 {
        assert(terms[terms.len() - 1].variable.index != terms[at].variable.index);
        let fewer = terms.drop_last();
        assert(fewer[at] == terms[at]);
        assert forall|i: int| 0 <= i < fewer.len() && i != at implies (
        #[trigger] fewer[i]).variable.index != fewer[at].variable.index by {
            assert(terms[i].variable.index != terms[at].variable.index);
        }
        lemma_coefficient_single(fewer, at);
    }
}

} // verus!
