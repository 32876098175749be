//! Query-optimization core of a distributed analytical SQL engine.
//!
//! The crate holds the relational expression tree, the passes that rewrite
//! it (subquery decorrelation and column pruning), the plan formatters, and
//! the decision logic of the exchange and spill stages of the executor.
//! Every executable function carries a contract over the mathematical view
//! of its data.

pub mod columns;
pub mod copy;
pub mod copy_binder;
pub mod correlation;
pub mod decorrelate;
pub mod elimination;
pub mod error;
pub mod exchange;
pub mod flatten;
pub mod format;
pub mod format_tree;
pub mod grouping;
pub mod growth;
pub mod insert;
pub mod ir;
pub mod join_predicate;
pub mod metadata;
pub mod order_by;
pub mod physical_format;
pub mod physical_plan;
pub mod plan_parser;
pub mod planner;
pub mod property;
pub mod prune;
pub mod rewrite;
pub mod role_cache;
pub mod scalar;
pub mod scalars;
pub mod spill;
pub mod text;
pub mod types;
pub mod visitor;
