//! The administrative surface: where it listens and what it replies.

use crate::notification::{reload_failure_notification, Notification};
use crate::text::owned;
use vstd::prelude::*;

verus! {

/// Whether every character is a decimal digit.
pub open spec fn all_digits(s: Seq<char>) -> bool {
    forall|i: int| 0 <= i < s.len() ==> '0' <= #[trigger] s[i] <= '9'
}

/// The number that a sequence of decimal digits writes.
pub open spec fn decimal_value(s: Seq<char>) -> int
    decreases s.len(),
{
    if s.len() == 0 {
        0
    } else {
        decimal_value(s.drop_last()) * 10 + (s.last() as int - '0' as int)
    }
}

/// The port that a text writes: decimal digits, with or without a `+`
/// before them, whose value is at most 65535.
pub open spec fn port_of(s: Seq<char>) -> Option<u16> {
    let digits = if s.len() > 0 && s[0] == '+' {
        s.skip(1)
    } else {
        s
    };
    if digits.len() > 0 && all_digits(digits) && decimal_value(digits) <= u16::MAX {
        Some(decimal_value(digits) as u16)
    } else {
        None
    }
}

/// The port that a text writes.
///
/// Calls `str::parse::<u16>`, whose result is that of `u16::from_str`.
/// That is documented to take an optional `+` sign followed by only
/// decimal digits, and to fail on an empty string, on any other character
/// and on a number that does not fit.
#[verifier::external_body]
pub(crate) fn parse_port(s: &str) -> (r: Option<u16>)
    ensures
        r == port_of(s@),
{
    s.parse::<u16>().ok()
}

/// Where the administrative surface listens.
#[derive(Debug)]
pub struct HttpEndpoint {
    pub host: String,
    pub port: u16,
}

/// Why the administrative surface cannot listen where it was told to.
pub open spec fn invalid_port() -> Seq<char> {
    "Failed to parse GAMAYUN_HTTP_PORT"@
}

/// Where the administrative surface listens, from `GAMAYUN_HTTP_HOST` and
/// `GAMAYUN_HTTP_PORT`. The host defaults to `0.0.0.0`, the port to 8080;
/// a port that is set must be a number from 0 to 65535.
pub fn http_endpoint(host: Option<String>, port: Option<String>) -> (r: Result<HttpEndpoint, String>)
    ensures
        match port {
            None => r is Ok && r->Ok_0.port == 8080,
            Some(text) => match port_of(text@) {
                Some(number) => r is Ok && r->Ok_0.port == number,
                None => r is Err && r->Err_0@ == invalid_port(),
            },
        },
        r is Ok ==> r->Ok_0.host@ == match host {
            Some(h) => h@,
            None => "0.0.0.0"@,
        },
{
    let port = match port {
        None => 8080,
        Some(text) => match parse_port(text.as_str()) {
            Some(number) => number,
            None => {
                return Err(owned("Failed to parse GAMAYUN_HTTP_PORT"));
            },
        },
    };
    let host = match host {
        Some(h) => h,
        None => owned("0.0.0.0"),
    };
    Ok(HttpEndpoint { host, port })
}

/// A reply of the administrative surface.
#[derive(Debug)]
pub struct HttpReply {
    pub status: u16,
    pub body: String,
}

/// The answer to a request for the version.
#[derive(Debug)]
pub struct VersionResponse {
    pub version: String,
}

/// The version of the running application.
pub fn retrieve_version(app_version: &str) -> (r: VersionResponse)
    ensures
        r.version@ == app_version@,
{
    VersionResponse { version: owned(app_version) }
}

/// The reply to a request to reload the job definitions, and the
/// notification to send with it. A reload that went through is answered
/// with 200 and nothing to send; one that failed with 500 and a
/// notification that gives the reason.
pub fn handle_jobs_config_reload_request(outcome: Result<(), String>) -> (r: (HttpReply, Option<Notification>))
    ensures
        match outcome {
            Ok(_) => r.0.status == 200 && r.0.body@ == Seq::<char>::empty() && r.1 is None,
            Err(reason) => r.0.status == 500 && r.0.body@ == "Failed to reload job configuration"@ && r.1 is Some
                && r.1->Some_0@ == reload_failure_notification(reason@),
        },
{
    match outcome {
        Ok(_) => (HttpReply { status: 200, body: String::new() }, None),
        Err(reason) => (
            HttpReply { status: 500, body: owned("Failed to reload job configuration") },
            Some(Notification::reload_failure(reason.as_str())),
        ),
    }
}

} // verus!
