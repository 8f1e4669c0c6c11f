//! A backend-agnostic analytics query engine: metric definitions declare
//! clauses once, each backend renders them in its own dialect, and results
//! are folded into sets of bucketed metric entries.
pub mod backend;
pub mod challenge_flow;
pub mod clause;
pub mod errors;
pub mod metrics;
pub mod query;
pub mod rows;
pub mod sql;
pub mod time_range;
pub mod transformers;
