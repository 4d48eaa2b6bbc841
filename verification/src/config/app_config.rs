//! Application settings: which notification sinks are configured.

use crate::text::{concat3, texts};
use vstd::prelude::*;

verus! {

/// The settings of the SendGrid sink.
#[derive(Debug)]
pub struct SendGridConfig {
    pub api_key: String,
    pub from_email: String,
    pub to_emails: Vec<String>,
}

/// A [`SendGridConfig`] as plain values.
pub struct SendGridConfigView {
    pub api_key: Seq<char>,
    pub from_email: Seq<char>,
    pub to_emails: Seq<Seq<char>>,
}

impl View for SendGridConfig {
    type V = SendGridConfigView;

    open spec fn view(&self) -> SendGridConfigView {
        SendGridConfigView {
            api_key: self.api_key@,
            from_email: self.from_email@,
            to_emails: texts(self.to_emails@),
        }
    }
}

/// The application settings.
#[derive(Debug)]
pub struct AppConfig {
    /// The SendGrid sink is enabled where this is present.
    pub sendgrid_config: Option<SendGridConfig>,
}

/// The `sendgrid_config` table as the settings hold it: each key with its
/// value where it is set.
#[derive(Debug)]
pub struct SendGridSettings {
    pub api_key: Option<String>,
    pub from_email: Option<String>,
    pub to_emails: Option<Vec<String>>,
}

/// The first key that a `sendgrid_config` table lacks.
pub open spec fn missing_key(settings: SendGridSettings) -> Option<Seq<char>> {
    if settings.api_key is None {
        Some("api_key"@)
    } else if settings.from_email is None {
        Some("from_email"@)
    } else if settings.to_emails is None {
        Some("to_emails"@)
    } else {
        None
    }
}

/// The complaint about a key that is not set.
pub open spec fn missing_field(key: Seq<char>) -> Seq<char> {
    "missing field `"@ + key + "`"@
}

/// The file of the application settings below a configuration root,
/// without its extension.
pub fn app_config_path(config_root: &str) -> (path: String)
    ensures
        path@ == config_root@ + "/app_config"@,
{
    crate::text::concat2(config_root, "/app_config")
}

/// The application settings, from the `sendgrid_config` table where the
/// settings hold one.
///
/// Without the table the SendGrid sink is disabled. A table must set
/// `api_key`, `from_email` and `to_emails`; the first of them that is not
/// set is the error.
pub fn initialize_app_config(sendgrid_config: Option<SendGridSettings>) -> (r: Result<AppConfig, String>)
    ensures
        match sendgrid_config {
            None => r is Ok && r->Ok_0.sendgrid_config is None,
            Some(settings) => match missing_key(settings) {
                Some(key) => r is Err && r->Err_0@ == missing_field(key),
                None => r is Ok && r->Ok_0.sendgrid_config == Some(
                    SendGridConfig {
                        api_key: settings.api_key->Some_0,
                        from_email: settings.from_email->Some_0,
                        to_emails: settings.to_emails->Some_0,
                    },
                ),
            },
        },
{
    match sendgrid_config {
        None => Ok(AppConfig { sendgrid_config: None }),
        Some(settings) => {
            let api_key = match settings.api_key {
                Some(v) => v,
                None => {
                    return Err(concat3("missing field `", "api_key", "`"));
                },
            };
            let from_email = match settings.from_email {
                Some(v) => v,
                None => {
                    return Err(concat3("missing field `", "from_email", "`"));
                },
            };
            let to_emails = match settings.to_emails {
                Some(v) => v,
                None => {
                    return Err(concat3("missing field `", "to_emails", "`"));
                },
            };
            Ok(AppConfig { sendgrid_config: Some(SendGridConfig { api_key, from_email, to_emails }) })
        },
    }
}

} // verus!
