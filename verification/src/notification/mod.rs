//! Operator notifications: what a message says, and the sinks it goes to.

pub mod composite_notification_sender;
pub mod mail;

use crate::notification::mail::sendgrid_notification_sender::{MailRequest, MailRequestView};
use vstd::prelude::*;
use vstd::string::StringExecFns;

verus! {

/// A titled message for the operators.
#[derive(Debug)]
pub struct Notification {
    pub title: String,
    pub contents: String,
}

/// A [`Notification`] as plain text.
pub struct NotificationView {
    pub title: Seq<char>,
    pub contents: Seq<char>,
}

impl View for Notification {
    type V = NotificationView;

    open spec fn view(&self) -> NotificationView {
        NotificationView { title: self.title@, contents: self.contents@ }
    }
}

/// The views of a list of notifications, in order.
pub open spec fn notification_views(v: Seq<Notification>) -> Seq<NotificationView> {
    Seq::new(v.len(), |i: int| v[i]@)
}

/// What is sent when a run has missed its deadline.
pub open spec fn overdue_notification(job_name: Seq<char>, run_id: Seq<char>) -> NotificationView {
    NotificationView {
        title: "Gamayun Overdue Job for "@ + job_name,
        contents: "Job with name "@ + job_name + " and run ID "@ + run_id + " is overdue."@,
    }
}

/// What is sent when a job reports an error of its own.
pub open spec fn job_error_notification(
    job_name: Seq<char>,
    run_id: Seq<char>,
    error: Seq<char>,
) -> NotificationView {
    NotificationView {
        title: "Gamayun Error for job "@ + job_name,
        contents: "The following error was reported for job "@ + job_name + " with run id "@
            + run_id + ": \n"@ + error,
    }
}

/// What is sent when the job configuration could not be reloaded.
pub open spec fn reload_failure_notification(reason: Seq<char>) -> NotificationView {
    NotificationView {
        title: "Gamayun Job Configuration Reload Failure"@,
        contents: "Failed to reload job configuration: "@ + reason,
    }
}

/// What is sent when start-up fails after the sinks are known.
pub open spec fn initialization_failure_notification(reason: Seq<char>) -> NotificationView {
    NotificationView { title: "Initialization failed"@, contents: reason }
}

impl Notification {
    /// The message for a run of `job_name` that missed its deadline.
    pub fn overdue(job_name: &str, run_id: &str) -> (r: Notification)
        ensures
            r@ == overdue_notification(job_name@, run_id@),
    {
        let mut title = String::from_str("Gamayun Overdue Job for ");
        title.append(job_name);
        let mut contents = String::from_str("Job with name ");
        contents.append(job_name);
        contents.append(" and run ID ");
        contents.append(run_id);
        contents.append(" is overdue.");
        Notification { title, contents }
    }

    /// The message for an error that a run of `job_name` reported.
    pub fn job_error(job_name: &str, run_id: &str, error: &str) -> (r: Notification)
        ensures
            r@ == job_error_notification(job_name@, run_id@, error@),
    {
        let mut title = String::from_str("Gamayun Error for job ");
        title.append(job_name);
        let mut contents = String::from_str("The following error was reported for job ");
        contents.append(job_name);
        contents.append(" with run id ");
        contents.append(run_id);
        contents.append(": \n");
        contents.append(error);
        Notification { title, contents }
    }

    /// The message for a failed reload of the job configuration.
    pub fn reload_failure(reason: &str) -> (r: Notification)
        ensures
            r@ == reload_failure_notification(reason@),
    {
        let title = String::from_str("Gamayun Job Configuration Reload Failure");
        let mut contents = String::from_str("Failed to reload job configuration: ");
        contents.append(reason);
        Notification { title, contents }
    }

    /// The message for a failed start-up.
    pub fn initialization_failure(reason: &str) -> (r: Notification)
        ensures
            r@ == initialization_failure_notification(reason@),
    {
        Notification {
            title: String::from_str("Initialization failed"),
            contents: String::from_str(reason),
        }
    }
}

/// One thing to send on behalf of a sink.
#[derive(Debug)]
pub enum Delivery {
    /// A mail to hand to SendGrid.
    SendGridMail(MailRequest),
}

/// A [`Delivery`] as plain values.
pub enum DeliveryView {
    SendGridMail(MailRequestView),
}

impl View for Delivery {
    type V = DeliveryView;

    open spec fn view(&self) -> DeliveryView {
        match self {
            Delivery::SendGridMail(request) => DeliveryView::SendGridMail(request@),
        }
    }
}

/// The views of a list of deliveries, in order.
pub open spec fn delivery_views(v: Seq<Delivery>) -> Seq<DeliveryView> {
    Seq::new(v.len(), |i: int| v[i]@)
}

/// A sink for notifications. A sink does not send: it says what is to be
/// sent, and the caller sends it.
pub trait NotificationSender {
    /// What the sink sends for a notification.
    spec fn deliveries(&self, title: Seq<char>, contents: Seq<char>) -> Seq<DeliveryView>;

    /// What is to be sent for the notification with this title and these
    /// contents.
    fn notify(&self, message_title: String, message_contents: String) -> (r: Vec<Delivery>)
        ensures
            delivery_views(r@) == self.deliveries(message_title@, message_contents@),
    ;
}

} // verus!
