//! The SendGrid sink: the request that sends one notification as a mail.

use crate::notification::{Delivery, DeliveryView, NotificationSender};
use crate::text::{concat2, owned, texts};
use vstd::prelude::*;

verus! {

/// Where SendGrid takes mail.
pub open spec fn sendgrid_url() -> Seq<char> {
    "https://api.sendgrid.com/v3/mail/send"@
}

/// Who sends the mail, who gets it, and the key that authorises it.
#[derive(Debug)]
pub struct SendGridConfiguration {
    pub from_email: String,
    pub to_emails: Vec<String>,
    pub api_key: String,
}

/// A [`SendGridConfiguration`] as plain values.
pub struct SendGridConfigurationView {
    pub from_email: Seq<char>,
    pub to_emails: Seq<Seq<char>>,
    pub api_key: Seq<char>,
}

impl View for SendGridConfiguration {
    type V = SendGridConfigurationView;

    open spec fn view(&self) -> SendGridConfigurationView {
        SendGridConfigurationView {
            from_email: self.from_email@,
            to_emails: texts(self.to_emails@),
            api_key: self.api_key@,
        }
    }
}

/// A mail address as the request body holds it.
#[derive(Debug)]
pub struct EmailAddress {
    pub email: String,
}

/// One set of recipients with the subject they see.
#[derive(Debug)]
pub struct Personalization {
    pub to: Vec<EmailAddress>,
    pub subject: String,
}

/// One part of the mail's content.
#[derive(Debug)]
pub struct Content {
    pub content_type: String,
    pub value: String,
}

/// The body of the request that sends a mail.
#[derive(Debug)]
pub struct MailBody {
    pub personalizations: Vec<Personalization>,
    pub from: EmailAddress,
    pub content: Vec<Content>,
}

/// The request that sends a mail: a POST of `body`, as JSON, to `url`.
#[derive(Debug)]
pub struct MailRequest {
    pub url: String,
    /// The value of the `Authorization` header.
    pub authorization: String,
    /// The value of the `Content-Type` header.
    pub content_type: String,
    pub body: MailBody,
}

/// A [`MailRequest`] as plain values. The body holds one personalization
/// and one content part, so their fields stand here directly.
pub struct MailRequestView {
    pub url: Seq<char>,
    pub authorization: Seq<char>,
    pub content_type: Seq<char>,
    pub personalizations: Seq<(Seq<Seq<char>>, Seq<char>)>,
    pub from: Seq<char>,
    pub content: Seq<(Seq<char>, Seq<char>)>,
}

/// The addresses of a list of recipients, in order.
pub open spec fn addresses(to: Seq<EmailAddress>) -> Seq<Seq<char>> {
    Seq::new(to.len(), |i: int| to[i].email@)
}

impl View for MailRequest {
    type V = MailRequestView;

    open spec fn view(&self) -> MailRequestView {
        MailRequestView {
            url: self.url@,
            authorization: self.authorization@,
            content_type: self.content_type@,
            personalizations: Seq::new(
                self.body.personalizations@.len(),
                |i: int|
                    (addresses(self.body.personalizations@[i].to@), self.body.personalizations@[i].subject@),
            ),
            from: self.body.from.email@,
            content: Seq::new(
                self.body.content@.len(),
                |i: int| (self.body.content@[i].content_type@, self.body.content@[i].value@),
            ),
        }
    }
}

/// The request that sends the notification `title`, `contents` under a
/// configuration: one mail to all recipients, with the title as subject
/// and the contents as plain text.
pub open spec fn mail_request(
    config: SendGridConfigurationView,
    title: Seq<char>,
    contents: Seq<char>,
) -> MailRequestView {
    MailRequestView {
        url: sendgrid_url(),
        authorization: "Bearer "@ + config.api_key,
        content_type: "application/json"@,
        personalizations: seq![(config.to_emails, title)],
        from: config.from_email,
        content: seq![("text/plain"@, contents)],
    }
}

/// The sink that sends notifications as mail through SendGrid.
#[derive(Debug)]
pub struct SendGridNotificationSender {
    pub config: SendGridConfiguration,
}

impl SendGridNotificationSender {
    /// The sink for a configuration.
    pub fn new(config: SendGridConfiguration) -> (r: Self)
        ensures
            r.config == config,
    {
        SendGridNotificationSender { config }
    }

    /// The request that sends one notification.
    pub fn build_request(&self, message_title: &str, message_contents: &str) -> (request: MailRequest)
        ensures
            request@ == mail_request(self.config@, message_title@, message_contents@),
    {
        let mut to: Vec<EmailAddress> = Vec::new();
        let mut i: usize = 0;
        while i < self.config.to_emails.len()
            invariant
                i <= self.config.to_emails.len(),
                to.len() == i,
                forall|k: int| 0 <= k < i ==> (#[trigger] to[k]).email@ == self.config.to_emails[k]@,
            decreases self.config.to_emails.len() - i,
        {
            to.push(EmailAddress { email: self.config.to_emails[i].clone() });
            i = i + 1;
        }
        assert(addresses(to@) =~= texts(self.config.to_emails@));
        let mut personalizations: Vec<Personalization> = Vec::new();
        personalizations.push(Personalization { to, subject: owned(message_title) });
        let mut content: Vec<Content> = Vec::new();
        content.push(Content { content_type: owned("text/plain"), value: owned(message_contents) });
        let request = MailRequest {
            url: owned("https://api.sendgrid.com/v3/mail/send"),
            authorization: concat2("Bearer ", self.config.api_key.as_str()),
            content_type: owned("application/json"),
            body: MailBody {
                personalizations,
                from: EmailAddress { email: self.config.from_email.clone() },
                content,
            },
        };
        assert(request@.personalizations =~= mail_request(
            self.config@,
            message_title@,
            message_contents@,
        ).personalizations);
        assert(request@.content =~= mail_request(self.config@, message_title@, message_contents@).content);
        request
    }
}

impl NotificationSender for SendGridNotificationSender {
    open spec fn deliveries(&self, title: Seq<char>, contents: Seq<char>) -> Seq<DeliveryView> {
        seq![DeliveryView::SendGridMail(mail_request(self.config@, title, contents))]
    }

    fn notify(&self, message_title: String, message_contents: String) -> (r: Vec<Delivery>) {
        let mut r: Vec<Delivery> = Vec::new();
        r.push(Delivery::SendGridMail(self.build_request(message_title.as_str(), message_contents.as_str())));
        assert(crate::notification::delivery_views(r@) =~= self.deliveries(message_title@, message_contents@));
        r
    }
}

} // verus!
