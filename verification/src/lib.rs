//! A finite-state transition system — states, transitions between them, and
//! ground facts ("predicates") holding in specific states — together with a
//! boolean formula algebra over those facts and an evaluator that decides a
//! formula's truth at a single state.

pub mod formula;
pub mod laws;
pub mod store;

pub use formula::eval;
pub use formula::evaluate;
pub use formula::state_formula_and;
pub use formula::state_formula_not;
pub use formula::state_formula_or;
pub use formula::state_formula_predicate;
pub use formula::Formula;
pub use store::Predicate;
pub use store::PredicateQuery;
pub use store::State;
pub use store::Store;
pub use store::StoreError;
pub use store::Transition;
