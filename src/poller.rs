//! The decisions of the polling loop: when to fetch, what to publish, when to
//! wait. The loop that performs the fetches and keeps the time is the caller's.

use vstd::prelude::*;
use crate::data::{get_server_data, FetchError, VectorUnconfirmedTxs};
use crate::json::parsed_json;

verus! {

/// Milliseconds between the end of one fetch and the start of the next.
pub const POLL_INTERVAL_MS: u32 = 5000;

/// Whether a fetch is outstanding.
#[derive(Clone, Copy, Debug, PartialEq, Eq)]
pub enum Phase {
    Idle,
    Fetching,
}

/// What happened outside the poller.
#[derive(Debug, PartialEq)]
pub enum PollEvent {
    /// The timer ran out; the first one stands for start-up.
    TimerFired,
    /// The outstanding fetch finished: the response body, or the transport's
    /// error message.
    FetchDone(Result<String, String>),
}

/// What the caller is to do next.
#[derive(Clone, Copy, Debug, PartialEq, Eq)]
pub enum PollAction {
    /// Fetch the unconfirmed transactions and report the outcome.
    StartFetch,
    /// Fire the timer after this many milliseconds.
    ArmTimer(u32),
    /// Nothing to do.
    Wait,
}

/// The polling state: the phase, and the latest published batch or error.
#[derive(Debug, PartialEq)]
pub struct Poller {
    pub phase: Phase,
    pub latest: Option<Result<VectorUnconfirmedTxs, FetchError>>,
}

/// Whether `p` is what a finished fetch with `outcome` publishes: the transport
/// error as it came, `InvalidJson` for a body that is not JSON, or else the
/// batch decoded from the body.
pub open spec fn publishes(outcome: Result<String, String>, p: Result<VectorUnconfirmedTxs, FetchError>) -> bool {
    match outcome {
        Err(msg) => p == Err::<VectorUnconfirmedTxs, FetchError>(FetchError::Transport(msg)),
        Ok(body) => match parsed_json(body@) {
            None => p == Err::<VectorUnconfirmedTxs, FetchError>(FetchError::InvalidJson),
            Some(raw) => p matches Ok(b) && b.decodes(raw),
        },
    }
}

impl Poller {
    /// An idle poller that has published nothing.
    pub fn new() -> (r: Poller)
        ensures
            r.phase == Phase::Idle,
            r.latest is None,
    {
        Poller { phase: Phase::Idle, latest: None }
    }

    /// Takes one event. A timer starts a fetch unless one is outstanding; a
    /// finished fetch publishes its batch or error, whichever it was, and arms
    /// the timer at the same interval. Any other event changes nothing, so at
    /// most one fetch is outstanding at a time.
    pub fn step(&mut self, event: PollEvent) -> (r: PollAction)
        ensures
            old(self).phase == Phase::Idle && event == PollEvent::TimerFired ==> {
                &&& r == PollAction::StartFetch
                &&& final(self).phase == Phase::Fetching
                &&& final(self).latest == old(self).latest
            },
            event matches PollEvent::FetchDone(outcome) ==> (old(self).phase == Phase::Fetching
                ==> {
                &&& r == PollAction::ArmTimer(POLL_INTERVAL_MS)
                &&& final(self).phase == Phase::Idle
                &&& final(self).latest matches Some(p) && publishes(outcome, p)
            }),
            old(self).phase == Phase::Fetching && event == PollEvent::TimerFired ==> r
                == PollAction::Wait && *final(self) == *old(self),
            old(self).phase == Phase::Idle && event is FetchDone ==> r == PollAction::Wait
                && *final(self) == *old(self),
    {
        match event {
            PollEvent::TimerFired => match self.phase {
                Phase::Idle => {
                    self.phase = Phase::Fetching;
                    PollAction::StartFetch
                },
                Phase::Fetching => PollAction::Wait,
            },
            PollEvent::FetchDone(outcome) => match self.phase {
                Phase::Fetching => {
                    let published = match outcome {
                        Ok(body) => get_server_data(body.as_str()),
                        Err(msg) => Err(FetchError::Transport(msg)),
                    };
                    self.latest = Some(published);
                    self.phase = Phase::Idle;
                    PollAction::ArmTimer(POLL_INTERVAL_MS)
                },
                Phase::Idle => PollAction::Wait,
            },
        }
    }
}

} // verus!
