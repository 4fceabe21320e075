//! Keeps a repository's `pr-<number>` branches in sync with its pull
//! requests: one branch per open pull request, pointing at the pull
//! request's head commit, and no branch for a closed one.
//!
//! The crate holds the decision logic of that synchronisation: the data
//! model, the branch-naming rule, the reconciliation decision table, the
//! lowering of an action to primitive ref operations, and an in-memory
//! ref store that mirrors the remote ref namespace for testing. All
//! network traffic stays outside the library; callers feed it plain
//! records and carry out the actions it returns.

pub mod model;
pub mod naming;
pub mod ops;
pub mod pass;
pub mod reconcile;
pub mod report;
pub mod store;
