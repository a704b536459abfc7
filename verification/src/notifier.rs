//! The notifier: from a status report to the message that is posted to the
//! webhook, and from the outcome of the post to its result.
//!
//! Posting is not done here. `send_webhook` says what is to be posted; the
//! caller posts it and hands the outcome to `delivery_outcome`.

use crate::clock::{format_current_time, is_time_text};
use crate::config::{webhook_url, Credentials};
use crate::journal::{count_level, reads, Entry, Level, LogLine};
use crate::report::Info;
use vstd::prelude::*;

verus! {

/// The text of the message that reports `status` of `applianace` at `time`.
pub open spec fn message_text(applianace: Seq<char>, status: Seq<char>, time: Seq<char>) -> Seq<
    char,
> {
    applianace + " : Status: "@ + status + " - "@ + time + " \n@everyone"@
}

/// The name under which messages are shown.
pub open spec fn display_name() -> Seq<char> {
    "HomeKit"@
}

/// The line logged after a message went out.
pub open spec fn sent_text() -> Seq<char> {
    "Successfully sent webhook"@
}

/// The line logged after a message could not be delivered.
pub open spec fn failed_text() -> Seq<char> {
    "Failed to send webhook notification"@
}

/// One post to the webhook: where it goes, and the two fields of its payload.
#[derive(Clone, Debug, PartialEq, Eq)]
pub struct Notification {
    pub url: String,
    pub username: String,
    pub content: String,
}

/// A message did not reach the webhook: the post failed on the way, or the
/// service did not answer with success.
#[derive(Clone, Copy, Debug, PartialEq, Eq, Structural)]
pub struct DeliveryError {}

impl DeliveryError {
    /// What the error reads, the same for every cause.
    pub fn message(&self) -> (s: String)
        ensures
            s@ == failed_text(),
    {
        String::from_str("Failed to send webhook notification")
    }
}

/// What became of one post: its result and the lines to log.
#[derive(Debug, PartialEq, Eq)]
pub struct Delivery {
    pub result: Result<(), DeliveryError>,
    pub log: Vec<LogLine>,
}

/// Whether `n` is the post that reports `input` at the time that `time`
/// reads, to the webhook that `credentials` name.
pub open spec fn notifies(
    n: Notification,
    input: Info,
    credentials: Credentials,
    time: Seq<char>,
) -> bool {
    &&& n.url@ == webhook_url(credentials.id@, credentials.token@)
    &&& n.username@ == display_name()
    &&& n.content@ == message_text(input.applianace@, input.status@, time)
}

/// Writes the message that reports `input` at the time that `time` reads.
pub fn render_message(input: &Info, time: &str) -> (s: String)
    ensures
        s@ == message_text(input.applianace@, input.status@, time@),
{
    let mut s = input.applianace.clone();
    s.append(" : Status: ");
    s.append(input.status.as_str());
    s.append(" - ");
    s.append(time);
    s.append(" \n@everyone");
    s
}

/// The post that reports `input` at the time that `time` reads, to the
/// webhook that `credentials` name.
pub fn compose(input: &Info, credentials: &Credentials, time: &str) -> (n: Notification)
    ensures
        notifies(n, *input, *credentials, time@),
{
    Notification {
        url: credentials.url(),
        username: String::from_str("HomeKit"),
        content: render_message(input, time),
    }
}

/// The post that reports `input` now: as `compose`, with the local time of
/// the machine's clock.
pub fn send_webhook(input: &Info, credentials: &Credentials) -> (n: Notification)
    ensures
        exists|time: Seq<char>|
            is_time_text(time) && #[trigger] notifies(n, *input, *credentials, time),
{
    let time = format_current_time();
    compose(input, credentials, time.as_str())
}

/// The result of the post of `notification`, and the lines to log for it.
/// A delivered message is logged at debug level, after a line that says so;
/// a failure leaves one line at error level and the error.
pub fn delivery_outcome(notification: &Notification, delivered: bool) -> (d: Delivery)
    ensures
        d.result is Ok <==> delivered,
        delivered ==> reads(
            d.log@,
            seq![
                Entry { level: Level::Info, text: sent_text() },
                Entry { level: Level::Debug, text: notification.content@ },
            ],
        ),
        !delivered ==> reads(d.log@, seq![Entry { level: Level::Error, text: failed_text() }]),
        count_level(d.log@, Level::Error) == if delivered {
            0nat
        } else {
            1nat
        },
{
    let mut log: Vec<LogLine> = Vec::new();
    if delivered {
        log.push(LogLine::new(Level::Info, String::from_str("Successfully sent webhook")));
        log.push(LogLine::new(Level::Debug, notification.content.clone()));
        proof {
            assert(log@.drop_last().drop_last() =~= Seq::<LogLine>::empty());
            reveal_with_fuel(count_level, 3);
        }
        Delivery { result: Ok(()), log }
    } else {
        let error = DeliveryError {  };
        log.push(LogLine::new(Level::Error, error.message()));
        proof {
            assert(log@.drop_last() =~= Seq::<LogLine>::empty());
            reveal_with_fuel(count_level, 2);
        }
        Delivery { result: Err(error), log }
    }
}

} // verus!
