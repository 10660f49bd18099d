//! The sensor driver: its life from reset to shutdown, and the sequence of bus
//! transactions behind each request.
//!
//! A driver is made uninitialized, becomes active when the sensor has taken
//! the reset command, and is closed for good by a shutdown. Each request is
//! answered with a step: a transaction or a delay for the host to carry out,
//! or the end of the request. The host reports each step's outcome with
//! `resume` until the request is done. While a request is under way the
//! driver takes no other.

use crate::bus::exchange_of;
use crate::bus::write_of;
use crate::bus::Event;
use crate::bus::EventView;
use crate::bus::Transaction;
use crate::command::READ_COMMAND;
use crate::command::RESET_COMMAND;
use crate::command::STOP_COMMAND;
use crate::frame::decoded;
use crate::frame::Measurements;
use crate::frame::FRAME_LEN;
use crate::poller::poll_begin;
use crate::poller::poll_resume;
use crate::poller::PollStep;
use crate::poller::PollerState;
use crate::poller::ReadyPoller;
use crate::poller::RetryBudget;
use vstd::prelude::*;

verus! {

/// The bus address that the sensor answers to unless it is set otherwise.
pub const SCD30_DEFAULT_ADDRESS: u8 = 0x61;

/// Where a driver stands in its life.
#[derive(Clone, Copy, Debug, PartialEq, Eq)]
pub enum Lifecycle {
    /// The sensor has not been reset yet.
    Uninitialized,
    /// The sensor has been reset and can be read.
    Active,
    /// The driver has been shut down. Nothing leads out of this state.
    Closed,
}

/// Why a request ended without its result.
#[derive(Clone, Copy, Debug, PartialEq, Eq)]
pub enum DriverError {
    /// The bus failed the reset or the read of the frame.
    BusTransaction,
    /// The bus failed every readiness query that the budget allowed.
    DataNotReady,
    /// The frame that was read is not 18 bytes long.
    ByteConversion,
    /// The bus failed the stop command. The driver is closed all the same.
    ShutdownTransactionFailed,
    /// The driver is not in a state to take the request.
    InvalidState,
    /// The event answers nothing that the driver asked for.
    UnexpectedEvent,
}

/// What a request that ended well has brought.
#[derive(Clone, Copy, Debug, PartialEq, Eq)]
pub enum Completion {
    /// The sensor took the reset command; the driver is active.
    Initialized,
    /// The measurements of the frame that was read.
    Readings(Measurements),
    /// The driver is closed.
    Closed,
}

/// What the driver asks of the host next, or how the request ended.
#[derive(Clone, Copy, Debug, PartialEq, Eq)]
pub enum Step {
    /// Carry out this transaction and report what came of it.
    Transact(Transaction),
    /// Wait this long and report that the delay is over.
    Sleep { millis: u64 },
    /// The request is over.
    Done(Result<Completion, DriverError>),
}

/// What a driver is busy with, as contracts see it.
pub enum DriverPhase {
    /// Made, and not reset yet.
    Uninitialized,
    /// The reset command is on the bus.
    Resetting,
    /// Active, with no request under way.
    Active,
    /// A read is under way, at its readiness handshake.
    Polling(PollerState),
    /// A read is under way: the read command is on the bus.
    Reading,
    /// The stop command is on the bus.
    Stopping,
    /// Closed.
    Closed,
}

/// A driver as contracts see it.
pub struct DriverState {
    pub address: u8,
    pub budget: RetryBudget,
    pub phase: DriverPhase,
}

/// The reset of the sensor at `address`.
pub open spec fn reset_write(address: u8) -> Transaction {
    write_of(address, RESET_COMMAND)
}

/// The read of a measurement frame from the sensor at `address`.
pub open spec fn frame_read(address: u8) -> Transaction {
    exchange_of(address, READ_COMMAND, FRAME_LEN)
}

/// The stop command to the sensor at `address`.
pub open spec fn stop_write(address: u8) -> Transaction {
    write_of(address, STOP_COMMAND)
}

/// How a read ends on the bytes that the read command brought.
pub open spec fn read_outcome(frame: Seq<u8>) -> Result<Completion, DriverError> {
    if frame.len() == 18 {
        Ok(Completion::Readings(decoded(frame)))
    } else {
        Err(DriverError::ByteConversion)
    }
}

impl DriverState {
    /// A driver for the sensor at `address`, not reset yet.
    pub open spec fn fresh(address: u8, budget: RetryBudget) -> DriverState {
        DriverState { address, budget, phase: DriverPhase::Uninitialized }
    }

    /// The same driver in another phase.
    pub open spec fn at(self, phase: DriverPhase) -> DriverState {
        DriverState { phase, ..self }
    }

    /// Where the driver stands in its life. A request under way belongs to
    /// the state that it started from.
    pub open spec fn lifecycle(self) -> Lifecycle {
        match self.phase {
            DriverPhase::Uninitialized | DriverPhase::Resetting => Lifecycle::Uninitialized,
            DriverPhase::Closed => Lifecycle::Closed,
            _ => Lifecycle::Active,
        }
    }

    /// Whether no request is under way.
    pub open spec fn idle(self) -> bool {
        self.phase is Uninitialized || self.phase is Active || self.phase is Closed
    }

    /// Whether a handshake under way is the driver's own: with its sensor,
    /// within its budget, and not over yet. Every driver is consistent.
    pub open spec fn consistent(self) -> bool {
        self.phase matches DriverPhase::Polling(poller) ==> {
            &&& poller.address == self.address
            &&& poller.delay_ms == self.budget.delay_ms
            &&& poller.left < self.budget.attempts
            &&& !(poller.stage is Finished)
        }
    }

    /// The driver and its first step after a request to initialize. Only an
    /// idle, uninitialized driver takes it: the reset goes on the bus.
    pub open spec fn on_initialize(self) -> (DriverState, Step) {
        match self.phase {
            DriverPhase::Uninitialized => (
                self.at(DriverPhase::Resetting),
                Step::Transact(reset_write(self.address)),
            ),
            _ => (self, Step::Done(Err(DriverError::InvalidState))),
        }
    }

    /// The driver and its first step after a request for readings. Only an
    /// idle, active driver takes it: the readiness handshake starts, or the
    /// read ends at once where the budget allows no attempt.
    pub open spec fn on_get_readings(self) -> (DriverState, Step) {
        match self.phase {
            DriverPhase::Active => {
                let (poller, first) = poll_begin(self.address, self.budget);
                match first {
                    PollStep::Transact(query) => (
                        self.at(DriverPhase::Polling(poller)),
                        Step::Transact(query),
                    ),
                    _ => (self, Step::Done(Err(DriverError::DataNotReady))),
                }
            },
            _ => (self, Step::Done(Err(DriverError::InvalidState))),
        }
    }

    /// The driver and its first step after a request to shut down. An idle,
    /// active driver puts the stop command on the bus. A closed driver stays
    /// as it is, and a driver that was never initialized is closed, both
    /// without a transaction. While a request is under way the shutdown is
    /// refused.
    pub open spec fn on_shutdown(self) -> (DriverState, Step) {
        match self.phase {
            DriverPhase::Active => (
                self.at(DriverPhase::Stopping),
                Step::Transact(stop_write(self.address)),
            ),
            DriverPhase::Uninitialized | DriverPhase::Closed => (
                self.at(DriverPhase::Closed),
                Step::Done(Ok(Completion::Closed)),
            ),
            _ => (self, Step::Done(Err(DriverError::InvalidState))),
        }
    }

    /// The driver and its next step after the host's report on the last one.
    pub open spec fn on_event(self, event: EventView) -> (DriverState, Step) {
        match self.phase {
            DriverPhase::Resetting => match event {
                EventView::Completed(_) => (
                    self.at(DriverPhase::Active),
                    Step::Done(Ok(Completion::Initialized)),
                ),
                EventView::Failed => (
                    self.at(DriverPhase::Closed),
                    Step::Done(Err(DriverError::BusTransaction)),
                ),
                EventView::Elapsed => (self, Step::Done(Err(DriverError::UnexpectedEvent))),
            },
            DriverPhase::Polling(poller) => {
                let (next, step) = poll_resume(poller, event);
                match step {
                    PollStep::Transact(query) => (
                        self.at(DriverPhase::Polling(next)),
                        Step::Transact(query),
                    ),
                    PollStep::Sleep { millis } => (
                        self.at(DriverPhase::Polling(next)),
                        Step::Sleep { millis },
                    ),
                    PollStep::Ready(_) => (
                        self.at(DriverPhase::Reading),
                        Step::Transact(frame_read(self.address)),
                    ),
                    PollStep::DataNotReady => (
                        self.at(DriverPhase::Active),
                        Step::Done(Err(DriverError::DataNotReady)),
                    ),
                    PollStep::Unexpected => (
                        self,
                        Step::Done(Err(DriverError::UnexpectedEvent)),
                    ),
                }
            },
            DriverPhase::Reading => match event {
                EventView::Completed(frame) => (
                    self.at(DriverPhase::Active),
                    Step::Done(read_outcome(frame)),
                ),
                EventView::Failed => (
                    self.at(DriverPhase::Active),
                    Step::Done(Err(DriverError::BusTransaction)),
                ),
                EventView::Elapsed => (self, Step::Done(Err(DriverError::UnexpectedEvent))),
            },
            DriverPhase::Stopping => match event {
                EventView::Completed(_) => (
                    self.at(DriverPhase::Closed),
                    Step::Done(Ok(Completion::Closed)),
                ),
                EventView::Failed => (
                    self.at(DriverPhase::Closed),
                    Step::Done(Err(DriverError::ShutdownTransactionFailed)),
                ),
                EventView::Elapsed => (self, Step::Done(Err(DriverError::UnexpectedEvent))),
            },
            _ => (self, Step::Done(Err(DriverError::UnexpectedEvent))),
        }
    }
}

/// What the driver is busy with.
#[derive(Clone, Copy, Debug, PartialEq, Eq)]
enum Phase {
    Uninitialized,
    Resetting,
    Active,
    Polling(ReadyPoller),
    Reading,
    Stopping,
    Closed,
}

/// The driver of one sensor on the bus.
#[derive(Debug)]
pub struct AdafruitSCD30 {
    i2c_address: u8,
    budget: RetryBudget,
    phase: Phase,
}

impl View for AdafruitSCD30 {
    type V = DriverState;

    closed spec fn view(&self) -> DriverState {
        DriverState {
            address: self.i2c_address,
            budget: self.budget,
            phase: match self.phase {
                Phase::Uninitialized => DriverPhase::Uninitialized,
                Phase::Resetting => DriverPhase::Resetting,
                Phase::Active => DriverPhase::Active,
                Phase::Polling(poller) => DriverPhase::Polling(poller@),
                Phase::Reading => DriverPhase::Reading,
                Phase::Stopping => DriverPhase::Stopping,
                Phase::Closed => DriverPhase::Closed,
            },
        }
    }
}

impl AdafruitSCD30 {
    /// What holds of every driver.
    #[verifier::type_invariant]
    closed spec fn inv(&self) -> bool {
        self@.consistent()
    }

    /// Asks for the sensor to be reset. The driver becomes active when the
    /// bus has carried the reset; if the bus fails it, the driver is closed.
    pub fn initialize(&mut self) -> (step: Step)
        ensures
            (final(self)@, step) == old(self)@.on_initialize(),
            final(self)@.consistent(),
    {
        proof {
            use_type_invariant(&*self);
        }
        match self.phase {
            Phase::Uninitialized => {
                self.phase = Phase::Resetting;
                Step::Transact(Transaction::write(self.i2c_address, RESET_COMMAND))
            },
            _ => Step::Done(Err(DriverError::InvalidState)),
        }
    }

    /// Asks for one reading. The readiness handshake comes first, then the
    /// read of the frame, whatever the sensor said of its readiness. A driver
    /// that is not active, or busy, fails the request without a transaction.
    pub fn get_readings(&mut self) -> (step: Step)
        ensures
            (final(self)@, step) == old(self)@.on_get_readings(),
            !(old(self)@.phase is Active) ==> final(self)@ == old(self)@ && step == Step::Done(
                Err(DriverError::InvalidState),
            ),
            final(self)@.consistent(),
    {
        proof {
            use_type_invariant(&*self);
        }
        match self.phase {
            Phase::Active => {
                let (poller, first) = ReadyPoller::begin(self.i2c_address, self.budget);
                match first {
                    PollStep::Transact(query) => {
                        self.phase = Phase::Polling(poller);
                        Step::Transact(query)
                    },
                    _ => Step::Done(Err(DriverError::DataNotReady)),
                }
            },
            _ => Step::Done(Err(DriverError::InvalidState)),
        }
    }

    /// Asks for the driver to be closed. An active driver sends the stop
    /// command first and is closed whether or not the bus carries it. A
    /// closed driver answers that it is closed, without a transaction.
    pub fn shutdown(&mut self) -> (step: Step)
        ensures
            (final(self)@, step) == old(self)@.on_shutdown(),
            old(self)@.phase is Closed ==> final(self)@ == old(self)@ && step == Step::Done(
                Ok(Completion::Closed),
            ),
            final(self)@.consistent(),
    {
        proof {
            use_type_invariant(&*self);
        }
        match self.phase {
            Phase::Active => {
                self.phase = Phase::Stopping;
                Step::Transact(Transaction::write(self.i2c_address, STOP_COMMAND))
            },
            Phase::Uninitialized | Phase::Closed => {
                self.phase = Phase::Closed;
                Step::Done(Ok(Completion::Closed))
            },
            _ => Step::Done(Err(DriverError::InvalidState)),
        }
    }

    /// Takes the host's report on the step that was asked for last, and says
    /// what comes next. An event that answers nothing changes nothing.
    pub fn resume(&mut self, event: Event) -> (step: Step)
        ensures
            (final(self)@, step) == old(self)@.on_event(event@),
            final(self)@.consistent(),
    {
        proof {
            use_type_invariant(&*self);
        }
        match self.phase {
            Phase::Resetting => match event {
                Event::Completed(_) => {
                    self.phase = Phase::Active;
                    Step::Done(Ok(Completion::Initialized))
                },
                Event::Failed => {
                    self.phase = Phase::Closed;
                    Step::Done(Err(DriverError::BusTransaction))
                },
                Event::Elapsed => Step::Done(Err(DriverError::UnexpectedEvent)),
            },
            Phase::Polling(poller) => {
                let mut poller = poller;
                match poller.resume(event) {
                    PollStep::Transact(query) => {
                        self.phase = Phase::Polling(poller);
                        Step::Transact(query)
                    },
                    PollStep::Sleep { millis } => {
                        self.phase = Phase::Polling(poller);
                        Step::Sleep { millis }
                    },
                    PollStep::Ready(_) => {
                        self.phase = Phase::Reading;
                        Step::Transact(
                            Transaction::write_then_read(self.i2c_address, READ_COMMAND, FRAME_LEN),
                        )
                    },
                    PollStep::DataNotReady => {
                        self.phase = Phase::Active;
                        Step::Done(Err(DriverError::DataNotReady))
                    },
                    PollStep::Unexpected => Step::Done(Err(DriverError::UnexpectedEvent)),
                }
            },
            Phase::Reading => match event {
                Event::Completed(frame) => {
                    self.phase = Phase::Active;
                    match Measurements::decode(frame.as_slice()) {
                        Ok(measurements) => Step::Done(Ok(Completion::Readings(measurements))),
                        Err(_) => Step::Done(Err(DriverError::ByteConversion)),
                    }
                },
                Event::Failed => {
                    self.phase = Phase::Active;
                    Step::Done(Err(DriverError::BusTransaction))
                },
                Event::Elapsed => Step::Done(Err(DriverError::UnexpectedEvent)),
            },
            Phase::Stopping => match event {
                Event::Completed(_) => {
                    self.phase = Phase::Closed;
                    Step::Done(Ok(Completion::Closed))
                },
                Event::Failed => {
                    self.phase = Phase::Closed;
                    Step::Done(Err(DriverError::ShutdownTransactionFailed))
                },
                Event::Elapsed => Step::Done(Err(DriverError::UnexpectedEvent)),
            },
            _ => Step::Done(Err(DriverError::UnexpectedEvent)),
        }
    }

    /// A driver for the sensor at `i2c_address`, with the usual budget for
    /// the readiness handshake. It is uninitialized: nothing has gone over
    /// the bus.
    pub fn new(i2c_address: u8) -> (driver: AdafruitSCD30)
        ensures
            driver@ == DriverState::fresh(i2c_address, RetryBudget::standard()),
            driver@.consistent(),
    {
        AdafruitSCD30 { i2c_address, budget: RetryBudget::default(), phase: Phase::Uninitialized }
    }

    /// A driver for the sensor at `i2c_address` that polls within `budget`.
    /// It is uninitialized.
    pub fn with_budget(i2c_address: u8, budget: RetryBudget) -> (driver: AdafruitSCD30)
        ensures
            driver@ == DriverState::fresh(i2c_address, budget),
            driver@.consistent(),
    {
        AdafruitSCD30 { i2c_address, budget, phase: Phase::Uninitialized }
    }

    /// Where the driver stands in its life.
    pub fn lifecycle(&self) -> (lifecycle: Lifecycle)
        ensures
            lifecycle == self@.lifecycle(),
    {
        match self.phase {
            Phase::Uninitialized | Phase::Resetting => Lifecycle::Uninitialized,
            Phase::Closed => Lifecycle::Closed,
            _ => Lifecycle::Active,
        }
    }

    /// Whether no request is under way.
    pub fn is_idle(&self) -> (idle: bool)
        ensures
            idle == self@.idle(),
    {
        match self.phase {
            Phase::Uninitialized | Phase::Active | Phase::Closed => true,
            _ => false,
        }
    }

    /// The bus address of the sensor.
    pub fn i2c_address(&self) -> (address: u8)
        ensures
            address == self@.address,
    {
        self.i2c_address
    }

    /// The budget of the readiness handshake.
    pub fn budget(&self) -> (budget: RetryBudget)
        ensures
            budget == self@.budget,
    {
        self.budget
    }
}

} // verus!
