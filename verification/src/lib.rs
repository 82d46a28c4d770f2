//! Lowering of linear programs into the row-oriented form that a numerical
//! solver takes, and reading of what the solver hands back.
//!
//! Real numbers are carried as IEEE 754 binary64 bit patterns ([`Scalar`]),
//! so that every value the solver sees is fixed bit for bit by a contract.

pub mod model;
pub mod problem;
pub mod rows;
pub mod scalar;
pub mod solution;

pub use model::Constraint;
pub use model::ConstraintReference;
pub use model::Expression;
pub use model::ObjectiveDirection;
pub use model::ResolutionError;
pub use model::Term;
pub use model::UnsolvedProblem;
pub use model::Variable;
pub use model::VariableDefinition;
pub use scalar::Scalar;
pub use rows::Column;
pub use rows::Entry;
pub use rows::HighsModelStatus;
pub use rows::Model;
pub use rows::Row;
pub use rows::RowProblem;
pub use rows::Sense;
pub use rows::Solution;
pub use rows::SolvedModel;
pub use solution::HighsSolution;
pub use problem::highs;
pub use problem::HighsProblem;
