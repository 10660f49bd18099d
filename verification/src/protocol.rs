//! The rules of the exchange between driver and host, one step at a time.
//!
//! Each step of the driver says what it waits for next: the report on a
//! transaction, the end of a delay, or nothing. A host that answers each step
//! with a fitting report brings every request to its end within a known
//! number of reports, and is never told that its report was unexpected.

use crate::bus::EventView;
use crate::bus::Transaction;
use crate::driver::frame_read;
use crate::driver::reset_write;
use crate::driver::stop_write;
use crate::driver::Completion;
use crate::driver::DriverError;
use crate::driver::DriverPhase;
use crate::driver::DriverState;
use crate::driver::Lifecycle;
use crate::driver::Step;
use crate::frame::decoded;
use crate::poller::ready_flag;
use crate::poller::ready_query;
use crate::poller::PollStage;
use vstd::prelude::*;

verus! {

/// What a driver waits for.
pub enum Awaited {
    /// No report: no request is under way.
    Nothing,
    /// The report on a transaction: that it was carried out, or that it
    /// failed.
    Report,
    /// The end of a delay.
    DelayEnd,
}

/// What the driver in `state` waits for.
pub open spec fn waits_for(state: DriverState) -> Awaited {
    match state.phase {
        DriverPhase::Resetting | DriverPhase::Reading | DriverPhase::Stopping => Awaited::Report,
        DriverPhase::Polling(poller) => match poller.stage {
            PollStage::Querying => Awaited::Report,
            PollStage::Waiting => Awaited::DelayEnd,
            PollStage::Finished => Awaited::Nothing,
        },
        _ => Awaited::Nothing,
    }
}

/// What the host owes the driver after `step`.
pub open spec fn asks_for(step: Step) -> Awaited {
    match step {
        Step::Transact(_) => Awaited::Report,
        Step::Sleep { .. } => Awaited::DelayEnd,
        Step::Done(_) => Awaited::Nothing,
    }
}

/// Whether `event` is a report of the kind that is awaited.
pub open spec fn answers(event: EventView, awaited: Awaited) -> bool {
    match awaited {
        Awaited::Nothing => false,
        Awaited::Report => !(event is Elapsed),
        Awaited::DelayEnd => event is Elapsed,
    }
}

/// The most reports that the request under way can still take before it is
/// over: two for each attempt of the handshake that is left, and one for
/// each transaction on the bus.
pub open spec fn reports_owed(state: DriverState) -> nat {
    match state.phase {
        DriverPhase::Resetting | DriverPhase::Reading | DriverPhase::Stopping => 1,
        DriverPhase::Polling(poller) => match poller.stage {
            PollStage::Querying => 2 * poller.left + 2,
            PollStage::Waiting => 2 * poller.left + 1,
            PollStage::Finished => 0,
        },
        _ => 0,
    }
}

/// Whether `transaction` is one of the four that a driver has for its sensor.
pub open spec fn own_transaction(state: DriverState, transaction: Transaction) -> bool {
    ||| transaction == reset_write(state.address)
    ||| transaction == ready_query(state.address)
    ||| transaction == frame_read(state.address)
    ||| transaction == stop_write(state.address)
}

/// Whether `step` asks for nothing but what the driver in `state` may ask
/// for: a transaction of its own, or the delay of its budget.
pub open spec fn own_step(state: DriverState, step: Step) -> bool {
    match step {
        Step::Transact(transaction) => own_transaction(state, transaction),
        Step::Sleep { millis } => millis == state.budget.delay_ms,
        Step::Done(_) => true,
    }
}

/// How far a state of life is from the start.
pub open spec fn lifecycle_rank(lifecycle: Lifecycle) -> nat {
    match lifecycle {
        Lifecycle::Uninitialized => 0,
        Lifecycle::Active => 1,
        Lifecycle::Closed => 2,
    }
}

/// The first step of a request says what the driver then waits for, and a
/// request is over when its step is `Done`. An initialization or a shutdown
/// takes one report at most, a read two for each attempt of the budget.
pub proof fn lemma_request_says_what_is_awaited(state: DriverState)
    requires
        state.idle(),
    ensures
        ({
            let (next, step) = state.on_initialize();
            asks_for(step) == waits_for(next) && reports_owed(next) <= 1
        }),
        ({
            let (next, step) = state.on_get_readings();
            asks_for(step) == waits_for(next) && reports_owed(next) <= 2 * state.budget.attempts
        }),
        ({
            let (next, step) = state.on_shutdown();
            asks_for(step) == waits_for(next) && reports_owed(next) <= 1
        }),
{
}

/// A report of the kind that the driver waits for is never unexpected. It
/// brings the end of the request nearer, and the step that answers it says
/// what the driver waits for next.
pub proof fn lemma_awaited_report_advances(state: DriverState, event: EventView)
    requires
        answers(event, waits_for(state)),
    ensures
        ({
            let (next, step) = state.on_event(event);
            &&& step != Step::Done(Err(DriverError::UnexpectedEvent))
            &&& asks_for(step) == waits_for(next)
            &&& reports_owed(next) < reports_owed(state)
        }),
{
}

/// A report of another kind than the driver waits for is unexpected, and
/// changes nothing.
pub proof fn lemma_other_report_changes_nothing(state: DriverState, event: EventView)
    requires
        !answers(event, waits_for(state)),
    ensures
        state.on_event(event) == (state, Step::Done(Err(DriverError::UnexpectedEvent))),
{
}

/// While a request is under way the driver takes no other: it fails the new
/// request without a transaction and goes on as before.
pub proof fn lemma_busy_driver_takes_no_request(state: DriverState)
    requires
        !state.idle(),
    ensures
        state.on_initialize() == (state, Step::Done(Err(DriverError::InvalidState))),
        state.on_get_readings() == (state, Step::Done(Err(DriverError::InvalidState))),
        state.on_shutdown() == (state, Step::Done(Err(DriverError::InvalidState))),
{
}

/// Whatever is asked of a driver or reported to it, it asks for nothing but
/// the four transactions with its own sensor and the delay of its budget.
pub proof fn lemma_steps_are_the_drivers_own(state: DriverState, event: EventView)
    requires
        state.consistent(),
    ensures
        own_step(state, state.on_initialize().1) && state.on_initialize().0.consistent(),
        own_step(state, state.on_get_readings().1) && state.on_get_readings().0.consistent(),
        own_step(state, state.on_shutdown().1) && state.on_shutdown().0.consistent(),
        own_step(state, state.on_event(event).1) && state.on_event(event).0.consistent(),
{
}

/// A driver's life only goes forward, from uninitialized to active to
/// closed, and neither its address nor its budget ever changes.
pub proof fn lemma_lifecycle_only_advances(state: DriverState, event: EventView)
    ensures
        ({
            let after = state.on_initialize().0;
            &&& lifecycle_rank(state.lifecycle()) <= lifecycle_rank(after.lifecycle())
            &&& after.address == state.address && after.budget == state.budget
        }),
        ({
            let after = state.on_get_readings().0;
            &&& state.lifecycle() == after.lifecycle()
            &&& after.address == state.address && after.budget == state.budget
        }),
        ({
            let after = state.on_shutdown().0;
            &&& lifecycle_rank(state.lifecycle()) <= lifecycle_rank(after.lifecycle())
            &&& after.address == state.address && after.budget == state.budget
        }),
        ({
            let after = state.on_event(event).0;
            &&& lifecycle_rank(state.lifecycle()) <= lifecycle_rank(after.lifecycle())
            &&& after.address == state.address && after.budget == state.budget
        }),
{
}

/// A closed driver stays closed and asks for no transaction, whatever is
/// asked of it or reported to it: a request for readings fails, and so does a
/// request to initialize; a shutdown is answered as done.
pub proof fn lemma_closed_is_final(state: DriverState, event: EventView)
    requires
        state.phase is Closed,
    ensures
        state.on_get_readings() == (state, Step::Done(Err(DriverError::InvalidState))),
        state.on_initialize() == (state, Step::Done(Err(DriverError::InvalidState))),
        state.on_shutdown() == (state, Step::Done(Ok(Completion::Closed))),
        state.on_event(event) == (state, Step::Done(Err(DriverError::UnexpectedEvent))),
{
}

/// A shutdown closes the driver whether or not the bus carries the stop
/// command, and a second shutdown then finds it closed: it succeeds at once,
/// without a transaction.
pub proof fn lemma_second_shutdown_is_silent(state: DriverState, report: EventView)
    requires
        state.idle(),
        answers(report, Awaited::Report),
    ensures
        ({
            let (stopping, first) = state.on_shutdown();
            let closed = if first is Transact {
                stopping.on_event(report).0
            } else {
                stopping
            };
            &&& state.phase is Active <==> first == Step::Transact(stop_write(state.address))
            &&& closed.phase is Closed
            &&& closed.on_shutdown() == (closed, Step::Done(Ok(Completion::Closed)))
        }),
{
}

/// A sensor that answers "not ready" is read all the same: the read of the
/// frame follows the query, and a frame of 18 bytes gives its measurements.
pub proof fn lemma_not_ready_is_read_anyway(state: DriverState, response: Seq<u8>, frame: Seq<u8>)
    requires
        state.phase is Active,
        state.budget.attempts > 0,
        !ready_flag(response),
        frame.len() == 18,
    ensures
        ({
            let (started, first) = state.on_get_readings();
            let (answered, second) = started.on_event(EventView::Completed(response));
            let (last, third) = answered.on_event(EventView::Completed(frame));
            &&& first == Step::Transact(ready_query(state.address))
            &&& second == Step::Transact(frame_read(state.address))
            &&& third == Step::Done(Ok(Completion::Readings(decoded(frame))))
            &&& last == state
        }),
{
}

} // verus!
