//! Notification by electronic mail.

pub mod sendgrid_notification_sender;
