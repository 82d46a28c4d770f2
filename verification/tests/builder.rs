use lp_rows::highs;
use lp_rows::Column;
use lp_rows::Constraint;
use lp_rows::Entry;
use lp_rows::Expression;
use lp_rows::ObjectiveDirection;
use lp_rows::Scalar;
use lp_rows::Sense;
use lp_rows::Term;
use lp_rows::UnsolvedProblem;
use lp_rows::Variable;
use lp_rows::VariableDefinition;

fn num(x: f64) -> Scalar {
    Scalar::from_bits(x.to_bits())
}

fn plain(s: Scalar) -> f64 {
    f64::from_bits(s.to_bits())
}

fn term(index: usize, coefficient: f64) -> Term {
    Term { variable: Variable::at(index), coefficient: num(coefficient) }
}

fn expression(terms: Vec<Term>, constant: f64) -> Expression {
    Expression { terms, constant: num(constant) }
}

fn three_variables() -> UnsolvedProblem {
    UnsolvedProblem {
        objective: expression(vec![term(2, 7.0), term(0, -1.5)], 4.0),
        direction: ObjectiveDirection::Minimisation,
        variables: vec![
            VariableDefinition { min: num(0.0), max: num(10.0) },
            VariableDefinition { min: num(-3.0), max: num(f64::INFINITY) },
            VariableDefinition { min: num(f64::NEG_INFINITY), max: num(2.0) },
        ],
    }
}

#[test]
fn one_column_per_variable_in_declaration_order() {
    let problem = highs(three_variables());
    assert_eq!(problem.num_columns(), 3);
    assert_eq!(problem.num_constraints(), 0);
    let model = problem.into_inner();
    assert_eq!(model.sense, Sense::Minimise);
    assert_eq!(
        model.problem.columns,
        vec![
            Column { objective: num(-1.5), lower: num(0.0), upper: num(10.0) },
            Column { objective: num(0.0), lower: num(-3.0), upper: num(f64::INFINITY) },
            Column { objective: num(7.0), lower: num(f64::NEG_INFINITY), upper: num(2.0) },
        ]
    );
    assert!(model.problem.rows.is_empty());
}

#[test]
fn direction_maps_to_sense() {
    let mut p = three_variables();
    p.direction = ObjectiveDirection::Maximisation;
    assert_eq!(highs(p).into_inner().sense, Sense::Maximise);
    assert_eq!(highs(three_variables()).into_inner().sense, Sense::Minimise);
}

#[test]
fn problem_without_variables_has_no_columns() {
    let problem = highs(UnsolvedProblem {
        objective: expression(vec![], 0.0),
        direction: ObjectiveDirection::Maximisation,
        variables: vec![],
    });
    assert_eq!(problem.num_columns(), 0);
    let model = problem.into_inner();
    assert!(model.problem.columns.is_empty());
    assert!(model.problem.rows.is_empty());
}

#[test]
fn malformed_bounds_pass_through() {
    let problem = highs(UnsolvedProblem {
        objective: expression(vec![], 0.0),
        direction: ObjectiveDirection::Maximisation,
        variables: vec![VariableDefinition { min: num(3.0), max: num(1.0) }],
    });
    let model = problem.into_inner();
    assert_eq!(plain(model.problem.columns[0].lower), 3.0);
    assert_eq!(plain(model.problem.columns[0].upper), 1.0);
}

#[test]
fn references_count_from_zero_without_gaps() {
    let mut problem = highs(three_variables());
    for k in 0..5usize {
        assert_eq!(problem.num_constraints(), k);
        let c = Constraint { expression: expression(vec![term(k % 3, 1.0)], k as f64), is_equality: k % 2 == 0 };
        assert!(problem.accepts(&c));
        let reference = problem.add_constraint(c);
        assert_eq!(reference.index, k);
    }
    assert_eq!(problem.num_constraints(), 5);
    let model = problem.into_inner();
    assert_eq!(model.problem.rows.len(), 5);
    for k in 0..5usize {
        assert_eq!(plain(model.problem.rows[k].upper), -(k as f64));
        assert_eq!(model.problem.rows[k].entries, vec![Entry { column: k % 3, factor: num(1.0) }]);
    }
}

#[test]
fn inequality_row_has_no_lower_bound() {
    let mut problem = highs(three_variables());
    let c = Constraint { expression: expression(vec![term(0, 2.0), term(1, -3.0)], 4.0), is_equality: false };
    problem.add_constraint(c);
    let model = problem.into_inner();
    let row = &model.problem.rows[0];
    assert_eq!(plain(row.lower), f64::NEG_INFINITY);
    assert_eq!(plain(row.upper), -4.0);
    assert_eq!(
        row.entries,
        vec![Entry { column: 0, factor: num(2.0) }, Entry { column: 1, factor: num(-3.0) }]
    );
}

#[test]
fn equality_row_is_fixed() {
    let mut problem = highs(three_variables());
    let c = Constraint { expression: expression(vec![term(2, 1.0)], -5.0), is_equality: true };
    problem.add_constraint(c);
    let model = problem.into_inner();
    let row = &model.problem.rows[0];
    assert_eq!(plain(row.lower), 5.0);
    assert_eq!(plain(row.upper), 5.0);
    assert_eq!(row.entries, vec![Entry { column: 2, factor: num(1.0) }]);
}

#[test]
fn zero_constant_gives_negative_zero_bound() {
    let mut problem = highs(three_variables());
    let c = Constraint { expression: expression(vec![term(0, 1.0)], 0.0), is_equality: true };
    problem.add_constraint(c);
    let model = problem.into_inner();
    assert_eq!(model.problem.rows[0].upper.to_bits(), (-0.0f64).to_bits());
    assert_eq!(plain(model.problem.rows[0].upper), 0.0);
}

#[test]
fn zero_coefficients_leave_no_entry() {
    let mut problem = highs(three_variables());
    let c = Constraint {
        expression: expression(vec![term(0, 0.0), term(1, 6.0), term(2, -0.0)], 1.0),
        is_equality: false,
    };
    problem.add_constraint(c);
    let model = problem.into_inner();
    assert_eq!(model.problem.rows[0].entries, vec![Entry { column: 1, factor: num(6.0) }]);
}

#[test]
fn empty_expression_gives_empty_row() {
    let mut problem = highs(three_variables());
    let reference = problem.add_constraint(Constraint { expression: expression(vec![], 3.0), is_equality: false });
    assert_eq!(reference.index, 0);
    let model = problem.into_inner();
    assert!(model.problem.rows[0].entries.is_empty());
    assert_eq!(plain(model.problem.rows[0].upper), -3.0);
}

#[test]
fn adding_rows_leaves_columns_and_earlier_rows() {
    let mut problem = highs(three_variables());
    problem.put_constraint(Constraint { expression: expression(vec![term(0, 1.0)], 1.0), is_equality: false });
    let before = problem.clone().into_inner();
    problem.put_constraint(Constraint { expression: expression(vec![term(1, 1.0)], 2.0), is_equality: true });
    assert_eq!(problem.num_constraints(), 2);
    let after = problem.into_inner();
    assert_eq!(after.problem.columns, before.problem.columns);
    assert_eq!(after.problem.rows[0], before.problem.rows[0]);
    assert_eq!(after.sense, before.sense);
}

#[test]
fn accepts_only_variables_of_the_problem() {
    let problem = highs(three_variables());
    let inside = Constraint { expression: expression(vec![term(2, 1.0)], 0.0), is_equality: false };
    let outside = Constraint { expression: expression(vec![term(0, 1.0), term(3, 1.0)], 0.0), is_equality: false };
    assert!(problem.accepts(&inside));
    assert!(!problem.accepts(&outside));
}

#[test]
fn coefficient_of_absent_variable_is_zero() {
    let e = expression(vec![term(2, 7.0), term(0, -1.5)], 4.0);
    assert_eq!(e.coefficient(Variable::at(1)), num(0.0));
    assert_eq!(e.coefficient(Variable::at(0)), num(-1.5));
    assert_eq!(e.coefficient(Variable::at(2)), num(7.0));
    assert_eq!(plain(e.constant()), 4.0);
}

#[test]
fn coefficient_of_repeated_variable_is_the_last() {
    let e = expression(vec![term(1, 2.0), term(1, 9.0)], 0.0);
    assert_eq!(plain(e.coefficient(Variable::at(1))), 9.0);
}

#[test]
fn within_tests_every_term() {
    let e = expression(vec![term(0, 1.0), term(4, 1.0), term(1, 1.0)], 0.0);
    assert!(e.within(5));
    assert!(!e.within(4));
    assert!(expression(vec![], 1.0).within(0));
    assert_eq!(Variable::at(4).index(), 4);
}
