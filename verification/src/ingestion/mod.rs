//! Result ingestion: from a reported message to changes of the store and of
//! the registry of outstanding runs.

pub mod record;
pub mod policy;
pub mod result_collecting_service;
pub mod guarantees;
