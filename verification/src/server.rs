//! The HTTP face of the relay: which route a request takes, and what each
//! route answers.
//!
//! A report is relayed in two steps, with the post to the webhook between
//! them: `receive` takes the body of the request and says what to post,
//! `Relay::reply` takes the outcome of the post and says what to answer. No
//! step keeps anything from one request to the next.

use crate::clock::is_time_text;
use crate::config::Credentials;
use crate::journal::{count_level, reads, Entry, Level, LogLine};
use crate::notifier::{
    delivery_outcome, failed_text, notifies, send_webhook, sent_text, Notification,
};
use crate::report::Info;
use vstd::prelude::*;

verus! {

/// The status of a reply to a request that was served.
pub const OK: u16 = 200;

/// The status of a reply to a report that could not be read.
pub const BAD_REQUEST: u16 = 400;

/// The status of a reply to a report that could not be relayed.
pub const INTERNAL_SERVER_ERROR: u16 = 500;

/// Where a request goes.
#[derive(Clone, Copy, Debug, PartialEq, Eq, Structural)]
pub enum Route {
    /// `GET /health`: the liveness check.
    Health,
    /// `POST /`: a status report to relay.
    Relay,
    /// Anything else: left to the HTTP layer, which answers that there is no
    /// such resource.
    NotFound,
}

/// The route of a request with the method `method` for the path `path`.
pub open spec fn route_of(method: Seq<char>, path: Seq<char>) -> Route {
    if method == "GET"@ && path == "/health"@ {
        Route::Health
    } else if method == "POST"@ && path == "/"@ {
        Route::Relay
    } else {
        Route::NotFound
    }
}

/// The body of the reply to a liveness check.
pub open spec fn health_text() -> Seq<char> {
    "Status: 200 OK"@
}

/// The line logged for a liveness check.
pub open spec fn health_log_text() -> Seq<char> {
    "/health"@
}

/// A reply to a request, and the lines to log for it.
#[derive(Clone, Debug, PartialEq, Eq)]
pub struct Response {
    pub status: u16,
    pub body: String,
    pub log: Vec<LogLine>,
}

/// A report that was taken in: the lines to log for it, and the post that
/// relays it.
#[derive(Clone, Debug, PartialEq, Eq)]
pub struct Relay {
    pub log: Vec<LogLine>,
    pub notification: Notification,
}

/// What a request to relay leads to.
#[derive(Clone, Debug, PartialEq, Eq)]
pub enum Step {
    /// The report was read: post the notification, then answer by
    /// `Relay::reply`.
    Post(Relay),
    /// The body was no report: answer at once, and post nothing.
    Answer(Response),
}

/// Whether `relay` is what taking in `input` leads to: one line that records
/// the report, and the post that reports it, at some time of day, to the
/// webhook that `credentials` name.
pub open spec fn relays(relay: Relay, input: Info, credentials: Credentials) -> bool {
    &&& reads(relay.log@, seq![Entry { level: Level::Info, text: input.log_text() }])
    &&& exists|time: Seq<char>|
        is_time_text(time) && #[trigger] notifies(relay.notification, input, credentials, time)
}

/// Whether `r` is the reply to a request whose body is no status report: a
/// client error without a body, and nothing to log.
pub open spec fn refuses(r: Response) -> bool {
    &&& r.status == BAD_REQUEST
    &&& r.body@ == Seq::<char>::empty()
    &&& r.log@ == Seq::<LogLine>::empty()
}

fn same_text(a: &str, b: &str) -> (r: bool)
    ensures
        r == (a@ == b@),
{
    String::from_str(a) == String::from_str(b)
}

/// Finds the route of a request by its method and the path it asks for.
pub fn route(method: &str, path: &str) -> (r: Route)
    ensures
        r == route_of(method@, path@),
{
    if same_text(method, "GET") && same_text(path, "/health") {
        Route::Health
    } else if same_text(method, "POST") && same_text(path, "/") {
        Route::Relay
    } else {
        Route::NotFound
    }
}

/// Has `warp::http::StatusCode` write the status of success, through its
/// `Display`. Trusted: that it writes the number 200, a space and the reason
/// phrase `OK`.
#[verifier::external_body]
fn ok_status_text() -> (s: String)
    ensures
        s@ == "200 OK"@,
{
    warp::http::StatusCode::OK.to_string()
}

/// Answers a liveness check: always with success, whatever was asked before.
pub fn health() -> (r: Response)
    ensures
        r.status == OK,
        r.body@ == health_text(),
        reads(r.log@, seq![Entry { level: Level::Info, text: health_log_text() }]),
{
    let mut log: Vec<LogLine> = Vec::new();
    log.push(LogLine::new(Level::Info, String::from_str("/health")));
    let mut body = String::from_str("Status: ");
    body.append(ok_status_text().as_str());
    proof {
        reveal_strlit("Status: ");
        reveal_strlit("200 OK");
        reveal_strlit("Status: 200 OK");
        assert(body@ =~= health_text());
    }
    Response { status: OK, body, log }
}

/// Answers a request to relay whose body is no status report: nothing is
/// posted and nothing is told of the cause.
pub fn malformed_body() -> (r: Response)
    ensures
        refuses(r),
{
    Response { status: BAD_REQUEST, body: String::new(), log: Vec::new() }
}

/// Takes in the report `input`: logs it, reads the clock and says what to
/// post to the webhook that `credentials` name.
pub fn notif(input: &Info, credentials: &Credentials) -> (r: Relay)
    ensures
        relays(r, *input, *credentials),
{
    let mut log: Vec<LogLine> = Vec::new();
    log.push(LogLine::new(Level::Info, input.log_line()));
    let notification = send_webhook(input, credentials);
    let r = Relay { log, notification };
    proof {
        let time = choose|time: Seq<char>|
            is_time_text(time) && #[trigger] notifies(notification, *input, *credentials, time);
        assert(notifies(r.notification, *input, *credentials, time));
    }
    r
}

/// Takes in a request to relay, with the report that its body was read as,
/// if it could be read: a report is taken in as by `notif`, anything else is
/// answered as by `malformed_body`.
pub fn receive(body: Option<Info>, credentials: &Credentials) -> (step: Step)
    ensures
        match step {
            Step::Post(relay) => body matches Some(input) && relays(relay, input, *credentials),
            Step::Answer(r) => body is None && refuses(r),
        },
{
    match body {
        Some(input) => Step::Post(notif(&input, credentials)),
        None => Step::Answer(malformed_body()),
    }
}

impl Relay {
    /// Answers the sender of the report once the post is over: success where
    /// the message was delivered, a server error where it was not. The reply
    /// has no body, so that nothing of the cause reaches the sender; a
    /// failure leaves exactly one line at error level.
    pub fn reply(&self, delivered: bool) -> (r: Response)
        ensures
            r.status == if delivered {
                OK
            } else {
                INTERNAL_SERVER_ERROR
            },
            r.body@ == Seq::<char>::empty(),
            delivered ==> reads(
                r.log@,
                seq![
                    Entry { level: Level::Info, text: sent_text() },
                    Entry { level: Level::Debug, text: self.notification.content@ },
                ],
            ),
            !delivered ==> reads(r.log@, seq![Entry { level: Level::Error, text: failed_text() }]),
            count_level(r.log@, Level::Error) == if delivered {
                0nat
            } else {
                1nat
            },
    {
        let delivery = delivery_outcome(&self.notification, delivered);
        let status = match delivery.result {
            Ok(_) => OK,
            Err(_) => INTERNAL_SERVER_ERROR,
        };
        Response { status, body: String::new(), log: delivery.log }
    }
}

} // verus!
