//! Startup bootstrap coordinator for a replicated ledger node.
//!
//! At process start the node must reconstruct its authoritative root state
//! before block replay begins, either by restoring a persisted snapshot or by
//! replaying from the genesis definition.  This crate holds the decision
//! logic of that bootstrap: which path is taken, in what order the external
//! collaborators (probe, purge, snapshot loader, genesis replay) are invoked,
//! which failures are fatal, and how the results are assembled into the
//! node's initial state.  The collaborators themselves (directory scans,
//! archive deserialization, block replay) are performed by the surrounding
//! process, which drives the [`coordinator::Coordinator`] state machine:
//! the machine hands out actions, the driver performs them and hands back
//! the resulting events.

pub mod config;
pub mod coordinator;
pub mod enforcement;
pub mod errors;
pub mod hard_forks;
pub mod leader_schedule;
pub mod root_state;
pub mod selector;
pub mod snapshot;
