//! A relay of appliance status reports to a chat webhook.
//!
//! The crate holds the decisions of the relay: which route a request takes,
//! how a report is rendered into a message, where the message is posted and
//! which reply and log lines follow from the outcome of the post. Sockets and
//! the outbound call are left to the program around it.

pub mod clock;
pub mod config;
pub mod journal;
pub mod notifier;
pub mod report;
pub mod server;
pub mod text;
