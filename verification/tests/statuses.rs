use lp_rows::solution::classify;
use lp_rows::solution::status_name;
use lp_rows::HighsModelStatus;
use lp_rows::HighsSolution;
use lp_rows::ResolutionError;
use lp_rows::Scalar;
use lp_rows::Solution;
use lp_rows::SolvedModel;

fn every_status() -> Vec<(HighsModelStatus, &'static str)> {
    vec![
        (HighsModelStatus::NotSet, "NotSet"),
        (HighsModelStatus::LoadError, "LoadError"),
        (HighsModelStatus::ModelError, "ModelError"),
        (HighsModelStatus::PresolveError, "PresolveError"),
        (HighsModelStatus::SolveError, "SolveError"),
        (HighsModelStatus::PostsolveError, "PostsolveError"),
        (HighsModelStatus::ModelEmpty, "ModelEmpty"),
        (HighsModelStatus::Infeasible, "Infeasible"),
        (HighsModelStatus::UnboundedOrInfeasible, "UnboundedOrInfeasible"),
        (HighsModelStatus::Unbounded, "Unbounded"),
        (HighsModelStatus::Optimal, "Optimal"),
        (HighsModelStatus::ObjectiveBound, "ObjectiveBound"),
        (HighsModelStatus::ObjectiveTarget, "ObjectiveTarget"),
        (HighsModelStatus::ReachedTimeLimit, "ReachedTimeLimit"),
        (HighsModelStatus::ReachedIterationLimit, "ReachedIterationLimit"),
        (HighsModelStatus::Unknown, "Unknown"),
        (HighsModelStatus::ReachedSolutionLimit, "ReachedSolutionLimit"),
        (HighsModelStatus::ReachedInterrupt, "ReachedInterrupt"),
        (HighsModelStatus::ReachedMemoryLimit, "ReachedMemoryLimit"),
    ]
}

fn answer(status: HighsModelStatus) -> SolvedModel {
    SolvedModel {
        status,
        solution: Solution {
            columns: vec![Scalar::from_bits(1.5f64.to_bits())],
            dual_rows: vec![Scalar::from_bits(0.25f64.to_bits())],
        },
    }
}

#[test]
fn every_status_has_its_name() {
    for (status, name) in every_status() {
        assert_eq!(status_name(status), name);
    }
}

#[test]
fn every_status_lands_in_one_outcome() {
    for (status, name) in every_status() {
        let expected = match status {
            HighsModelStatus::Optimal => None,
            HighsModelStatus::Infeasible => Some(ResolutionError::Infeasible),
            HighsModelStatus::Unbounded => Some(ResolutionError::Unbounded),
            _ => Some(ResolutionError::Other(name)),
        };
        assert_eq!(classify(status), expected);
        let outcome = HighsSolution::resolve(answer(status));
        match expected {
            None => assert!(outcome.is_ok()),
            Some(e) => assert_eq!(outcome, Err(e)),
        }
    }
}

#[test]
fn setup_failures_are_tagged() {
    assert_eq!(HighsSolution::resolve(answer(HighsModelStatus::NotSet)), Err(ResolutionError::Other("NotSet")));
    assert_eq!(HighsSolution::resolve(answer(HighsModelStatus::LoadError)), Err(ResolutionError::Other("LoadError")));
    assert_eq!(HighsSolution::resolve(answer(HighsModelStatus::ModelError)), Err(ResolutionError::Other("ModelError")));
    assert_eq!(
        HighsSolution::resolve(answer(HighsModelStatus::PresolveError)),
        Err(ResolutionError::Other("PresolveError"))
    );
    assert_eq!(HighsSolution::resolve(answer(HighsModelStatus::SolveError)), Err(ResolutionError::Other("SolveError")));
    assert_eq!(
        HighsSolution::resolve(answer(HighsModelStatus::PostsolveError)),
        Err(ResolutionError::Other("PostsolveError"))
    );
    assert_eq!(HighsSolution::resolve(answer(HighsModelStatus::ModelEmpty)), Err(ResolutionError::Other("ModelEmpty")));
}

#[test]
fn infeasible_and_unbounded_are_surfaced() {
    assert_eq!(HighsSolution::resolve(answer(HighsModelStatus::Infeasible)), Err(ResolutionError::Infeasible));
    assert_eq!(HighsSolution::resolve(answer(HighsModelStatus::Unbounded)), Err(ResolutionError::Unbounded));
}

#[test]
fn statuses_short_of_an_optimum_are_failures() {
    assert_eq!(
        HighsSolution::resolve(answer(HighsModelStatus::ReachedTimeLimit)),
        Err(ResolutionError::Other("ReachedTimeLimit"))
    );
    assert_eq!(
        HighsSolution::resolve(answer(HighsModelStatus::UnboundedOrInfeasible)),
        Err(ResolutionError::Other("UnboundedOrInfeasible"))
    );
    assert_eq!(HighsSolution::resolve(answer(HighsModelStatus::Unknown)), Err(ResolutionError::Other("Unknown")));
}

#[test]
fn optimum_gives_fresh_solution() {
    let solution = HighsSolution::resolve(answer(HighsModelStatus::Optimal)).unwrap();
    assert_eq!(solution.num_values(), 1);
    assert!(!solution.has_duals());
    assert_eq!(solution.num_duals(), 0);
    assert_eq!(solution.into_inner(), answer(HighsModelStatus::Optimal).solution);
}
