//! Job definitions and application settings.

pub mod app_config;
pub mod job_config;
