//! Keeps a configured set of DNS records pointed at the host's public address.
//!
//! The crate holds the decisions of the updater: which provider record a
//! configured entry refers to, when a record has to be rewritten, what is sent
//! and when a failed attempt is repeated. Reaching the network, sleeping and
//! logging are left to the program around it.

pub mod data;
pub mod distributor;
pub mod error;
pub mod poll;
pub mod provider;
pub mod record;
pub mod resolve;
pub mod worker;
