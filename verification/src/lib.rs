//! Decides, before a push to a branch, whether an in-flight CI pipeline on
//! that branch should hold the push back.
//!
//! The crate contains the decision core only: deriving a stage order from a
//! pipeline's jobs, evaluating the blocking condition for one pipeline,
//! scanning the active pipelines of a branch, and the policy that turns scan
//! results into push / wait / abort decisions.  Fetching pipeline data,
//! command-line handling and terminal output are left to the caller.

pub mod evaluator;
pub mod model;
pub mod orchestrate;
pub mod scanner;
pub mod stage_order;
pub mod timing;
