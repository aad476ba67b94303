//! A hardware-test orchestrator core: a typed test-lifecycle state machine
//! together with the concurrent resource ledger that arbitrates device and
//! apparatus contention between pipeline stages.
//!
//! The crate holds the verified logic only: catalogs, the ledger, the
//! per-test resource collection, the lifecycle record and its stage
//! transitions, and the registry of running tests.  File, container and
//! channel plumbing lives with the embedding application.

pub mod catalog;
pub mod config;
pub mod folder;
pub mod htp_test;
pub mod rcfolder;
pub mod resource_ledger;
pub mod resources;
pub mod running_test_map;
pub mod stages;
pub mod statistics;
pub mod test_queue;
pub mod text;

use vstd::prelude::*;

verus! {

/// Numeric identifier of one running test instance.
pub type TestID = usize;

} // verus!
