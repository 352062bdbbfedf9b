//! Verified core of a bank-statement retrieval tool: month arithmetic over
//! extraction windows, the single-assignment shutdown signal, the bounded
//! readiness poller, the driver-process supervisor's decisions, credential
//! validation and the staged retrieval workflow.

pub mod dates;
pub mod config;
pub mod validation;
pub mod shutdown;
pub mod poller;
pub mod supervisor;
pub mod workflow;
pub mod ui;
