//! Coordination engine of a single-node job orchestrator: the rules by which
//! configured jobs become cron entries, launched runs are tracked until they
//! report or expire, reported results are stored under a per-job duplicate
//! policy, and operators are notified.
//!
//! Everything here works on plain values. Processes, sockets, the document
//! store and the cron scheduler are driven by the caller, which performs the
//! actions these functions decide on and hands back what happened.

pub mod config;
pub mod http;
pub mod ingestion;
pub mod init;
pub mod job_scheduling;
pub mod notification;
pub mod storage;
pub mod system;
pub mod text;
