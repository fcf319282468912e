//! Decoding of a blockchain node's unconfirmed-transactions feed into typed
//! records, and the state machine that polls that feed.

pub mod json;
pub mod data;
pub mod lemmas;
pub mod poller;
