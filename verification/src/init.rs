//! Start-up: the settings that the environment may override, and the
//! notification sinks that the application settings enable.

use crate::config::app_config::AppConfig;
use crate::notification::composite_notification_sender::CompositeNotificationSender;
use crate::notification::mail::sendgrid_notification_sender::{
    SendGridConfiguration, SendGridNotificationSender,
};
use crate::text::owned;
use vstd::prelude::*;

verus! {

/// The value of a setting: what the environment gives, else the default.
pub fn setting_or_default(value: Option<String>, default: &str) -> (r: String)
    ensures
        r@ == match value {
            Some(v) => v@,
            None => default@,
        },
{
    match value {
        Some(v) => v,
        None => owned(default),
    }
}

/// The address on which results are taken, from `GAMAYUN_GRPC_ADDR`.
pub fn grpc_listen_address(value: Option<String>) -> (r: String)
    ensures
        r@ == match value {
            Some(v) => v@,
            None => "[::1]:16656"@,
        },
{
    setting_or_default(value, "[::1]:16656")
}

/// The name of the database, from `GAMAYUN_MONGO_DB_NAME`.
pub fn get_mongo_db_name(value: Option<String>) -> (r: String)
    ensures
        r@ == match value {
            Some(v) => v@,
            None => "gamayun"@,
        },
{
    setting_or_default(value, "gamayun")
}

/// The SendGrid sink, where the application settings configure it.
pub fn initialize_send_grid_notifier(app_config: AppConfig) -> (r: Option<SendGridNotificationSender>)
    ensures
        match app_config.sendgrid_config {
            Some(settings) => r is Some && r->Some_0.config == (SendGridConfiguration {
                from_email: settings.from_email,
                to_emails: settings.to_emails,
                api_key: settings.api_key,
            }),
            None => r is None,
        },
{
    match app_config.sendgrid_config {
        Some(sendgrid_config) => Some(
            SendGridNotificationSender::new(
                SendGridConfiguration {
                    from_email: sendgrid_config.from_email,
                    to_emails: sendgrid_config.to_emails,
                    api_key: sendgrid_config.api_key,
                },
            ),
        ),
        None => None,
    }
}

/// The composite of the sinks that the application settings enable.
pub fn initialize_notification_sender(app_config: AppConfig) -> (r: CompositeNotificationSender<
    SendGridNotificationSender,
>)
    ensures
        match app_config.sendgrid_config {
            Some(settings) => r.senders@.len() == 1 && r.senders@[0].config == (SendGridConfiguration {
                from_email: settings.from_email,
                to_emails: settings.to_emails,
                api_key: settings.api_key,
            }),
            None => r.senders@.len() == 0,
        },
{
    let mut senders: Vec<SendGridNotificationSender> = Vec::new();
    match initialize_send_grid_notifier(app_config) {
        Some(sender) => {
            senders.push(sender);
        },
        None => {},
    }
    CompositeNotificationSender::new(Some(senders))
}

} // verus!
