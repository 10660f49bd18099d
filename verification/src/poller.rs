//! The readiness handshake: asking the sensor, a bounded number of times,
//! whether a fresh measurement is there.
//!
//! One query that the bus carries out settles the matter, whatever the sensor
//! answers. Only a query that the bus fails is tried again, after a fixed
//! delay, until the budget of attempts is spent.

use crate::bus::exchange_of;
use crate::bus::Event;
use crate::bus::EventView;
use crate::bus::Transaction;
use crate::command::DATA_READY_COMMAND;
use vstd::prelude::*;

verus! {

/// How many bytes the sensor answers to the readiness query.
pub const READY_RESPONSE_LEN: usize = 2;

/// The attempts of the usual budget.
pub const DEFAULT_ATTEMPTS: u32 = 10;

/// The delay between attempts of the usual budget, in milliseconds.
pub const DEFAULT_DELAY_MS: u64 = 100;

/// How often the readiness query is tried, and how long the poller waits
/// after an attempt that failed.
#[derive(Clone, Copy, Debug, PartialEq, Eq)]
pub struct RetryBudget {
    pub attempts: u32,
    pub delay_ms: u64,
}

impl RetryBudget {
    /// The usual budget: ten attempts, 100 milliseconds apart.
    pub open spec fn standard() -> RetryBudget {
        RetryBudget { attempts: DEFAULT_ATTEMPTS, delay_ms: DEFAULT_DELAY_MS }
    }
}

impl Default for RetryBudget {
    /// The usual budget.
    fn default() -> (budget: RetryBudget)
        ensures
            budget == RetryBudget::standard(),
    {
        RetryBudget { attempts: DEFAULT_ATTEMPTS, delay_ms: DEFAULT_DELAY_MS }
    }
}

/// What the answer to a readiness query says: ready when it has two bytes and
/// the low-order one is 1, not ready otherwise.
pub open spec fn ready_flag(response: Seq<u8>) -> bool {
    response.len() == 2 && response[1] == 1
}

/// Reads the readiness flag out of the answer to a readiness query.
pub fn is_data_available(response: &[u8]) -> (ready: bool)
    ensures
        ready == ready_flag(response@),
{
    response.len() == READY_RESPONSE_LEN && response[1] == 1
}

/// The readiness query to the device at `address`.
pub open spec fn ready_query(address: u8) -> Transaction {
    exchange_of(address, DATA_READY_COMMAND, READY_RESPONSE_LEN)
}

/// What a poller waits for.
#[derive(Clone, Copy, Debug, PartialEq, Eq)]
pub enum PollStage {
    /// A readiness query is on the bus.
    Querying,
    /// The delay after a failed query is running.
    Waiting,
    /// The handshake is over.
    Finished,
}

/// What the poller asks of the host next, or how the handshake ended.
#[derive(Clone, Copy, Debug, PartialEq, Eq)]
pub enum PollStep {
    /// Carry out this transaction and report what came of it.
    Transact(Transaction),
    /// Wait this long and report that the delay is over.
    Sleep { millis: u64 },
    /// The sensor answered: whether a measurement is ready.
    Ready(bool),
    /// The budget is spent and no query got through.
    DataNotReady,
    /// The event answers nothing that the poller asked for.
    Unexpected,
}

/// A poller as contracts see it.
pub struct PollerState {
    pub address: u8,
    pub delay_ms: u64,
    /// The attempts that are left after the one under way.
    pub left: nat,
    pub stage: PollStage,
}

/// How a handshake with the device at `address` starts: with a first query,
/// or at its end where the budget allows no attempt.
pub open spec fn poll_begin(address: u8, budget: RetryBudget) -> (PollerState, PollStep) {
    if budget.attempts == 0 {
        (
            PollerState { address, delay_ms: budget.delay_ms, left: 0, stage: PollStage::Finished },
            PollStep::DataNotReady,
        )
    } else {
        (
            PollerState {
                address,
                delay_ms: budget.delay_ms,
                left: (budget.attempts - 1) as nat,
                stage: PollStage::Querying,
            },
            PollStep::Transact(ready_query(address)),
        )
    }
}

/// How a poller goes on when the host reports `event`.
pub open spec fn poll_resume(state: PollerState, event: EventView) -> (PollerState, PollStep) {
    match (state.stage, event) {
        (PollStage::Querying, EventView::Completed(response)) => (
            PollerState { stage: PollStage::Finished, ..state },
            PollStep::Ready(ready_flag(response)),
        ),
        (PollStage::Querying, EventView::Failed) => (
            PollerState { stage: PollStage::Waiting, ..state },
            PollStep::Sleep { millis: state.delay_ms },
        ),
        (PollStage::Waiting, EventView::Elapsed) => if state.left == 0 {
            (PollerState { stage: PollStage::Finished, ..state }, PollStep::DataNotReady)
        } else {
            (
                PollerState { left: (state.left - 1) as nat, stage: PollStage::Querying, ..state },
                PollStep::Transact(ready_query(state.address)),
            )
        },
        _ => (state, PollStep::Unexpected),
    }
}

/// One readiness handshake in progress.
#[derive(Clone, Copy, Debug, PartialEq, Eq)]
pub struct ReadyPoller {
    address: u8,
    delay_ms: u64,
    left: u32,
    stage: PollStage,
}

impl View for ReadyPoller {
    type V = PollerState;

    closed spec fn view(&self) -> PollerState {
        PollerState {
            address: self.address,
            delay_ms: self.delay_ms,
            left: self.left as nat,
            stage: self.stage,
        }
    }
}

impl ReadyPoller {
    /// Starts a handshake with the device at `address`.
    pub fn begin(address: u8, budget: RetryBudget) -> (started: (ReadyPoller, PollStep))
        ensures
            (started.0@, started.1) == poll_begin(address, budget),
    {
        if budget.attempts == 0 {
            (
                ReadyPoller { address, delay_ms: budget.delay_ms, left: 0, stage: PollStage::Finished },
                PollStep::DataNotReady,
            )
        } else {
            (
                ReadyPoller {
                    address,
                    delay_ms: budget.delay_ms,
                    left: budget.attempts - 1,
                    stage: PollStage::Querying,
                },
                PollStep::Transact(
                    Transaction::write_then_read(address, DATA_READY_COMMAND, READY_RESPONSE_LEN),
                ),
            )
        }
    }

    /// Takes the host's report and says what comes next.
    pub fn resume(&mut self, event: Event) -> (step: PollStep)
        ensures
            (final(self)@, step) == poll_resume(old(self)@, event@),
    {
        match (self.stage, event) {
            (PollStage::Querying, Event::Completed(response)) => {
                self.stage = PollStage::Finished;
                PollStep::Ready(is_data_available(response.as_slice()))
            },
            (PollStage::Querying, Event::Failed) => {
                self.stage = PollStage::Waiting;
                PollStep::Sleep { millis: self.delay_ms }
            },
            (PollStage::Waiting, Event::Elapsed) => {
                if self.left == 0 {
                    self.stage = PollStage::Finished;
                    PollStep::DataNotReady
                } else {
                    self.left = self.left - 1;
                    self.stage = PollStage::Querying;
                    PollStep::Transact(
                        Transaction::write_then_read(
                            self.address,
                            DATA_READY_COMMAND,
                            READY_RESPONSE_LEN,
                        ),
                    )
                }
            },
            _ => PollStep::Unexpected,
        }
    }
}

} // verus!
