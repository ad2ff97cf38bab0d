//! Abstract linear operators described by the capabilities they offer, and a
//! conjugate gradient solver for the symmetric positive-definite ones.
//!
//! The library never touches a number itself. Vectors and their scalars are
//! reached through [`Column`], operators through [`LinearOperator`]; the
//! solver is stated and proved over the results those two interfaces name.

pub mod column;
pub mod operator;
pub mod solver;

pub use column::Column;
pub use operator::try_apply;
pub use operator::LinearOperator;
pub use operator::PositiveDefinite;
pub use operator::Symmetric;
pub use solver::Outcome;
pub use solver::SymmetricPositiveDefinite;
