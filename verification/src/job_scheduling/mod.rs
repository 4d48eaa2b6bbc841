//! The dispatcher: from job definitions to cron entries and launched runs.

pub mod config_reload;
pub mod dispatch;
pub mod schedule;
pub mod scheduled_job_tracking_service;
