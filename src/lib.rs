//! Scaffolding for invariant-fuzzing test harnesses: the names, imports and
//! inheritance lists of a family of handler and property contracts, and the
//! ordered list of directories and files that one generation run creates.
pub mod kind;
pub mod naming;
pub mod contract;
pub mod plan;
pub mod family;
pub mod run;
pub mod outcome;
