//! The logic of a command-line tool for the TrueLayer sandbox: it creates mock payments and
//! drives them to an executed or failed state through the mock provider, so that the
//! sandbox sends the matching webhooks, and it pulls webhooks from the webhook router and
//! forwards them to a local address. Network I/O lives in the binary; this crate decides
//! what is sent and what each answer means, with contracts proved by Verus.

use vstd::prelude::*;

pub mod text;
pub mod uri;
pub mod status;
pub mod mockprovider;
pub mod payment;
pub mod config;
pub mod webhook;
pub mod transport;
pub mod command;

