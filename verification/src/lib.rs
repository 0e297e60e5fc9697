//! A per-account status registry and the sequencing rules of the run that
//! exercises deployed registries through a ledger's transaction interface.

pub mod conformance;
pub mod deployments;
pub mod identity;
pub mod ledger;
pub mod orchestrator;
pub mod registry;
pub mod scenario;
mod table;
