//! Batch database-backup orchestration.
//!
//! Given a declarative list of database credentials, the library plans the
//! engine-specific dump command for each database, names the timestamped
//! output file for a captured dump, and accumulates failure log entries so
//! that one credential's failure never prevents processing of the others.

use vstd::prelude::*;

pub mod command;
pub mod logger;
pub mod naming;
pub mod orchestrator;
pub mod time;
pub mod types;

verus! {

} // verus!
