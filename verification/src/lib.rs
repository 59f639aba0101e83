//! An optimization framework: problems, evaluations, composable stop
//! criteria, bounded elite sets, neighborhood-based local search and the
//! BRKGA genetic metaheuristic.
//!
//! - [`problem`]: the evaluation model every optimization task builds on.
//! - [`stop_criterion`]: composable termination policies.
//! - [`elite_set`]: a bounded top-k collection with eviction.
//! - [`neighborhood`]: moves, neighborhoods, explorers and local search.
//! - [`solver`]: the generic iterate-until-stop driver.
//! - [`genetic`]: the BRKGA core and its population machinery.
//! - [`random`]: the random source the stochastic algorithms draw from.
//! - [`components`]: common building blocks for problem-dependent code.

pub mod components;
pub mod elite_set;
pub mod genetic;
pub mod neighborhood;
pub mod problem;
pub mod random;
pub mod solver;
pub mod stop_criterion;
