//! Whole requests: what the driver asks of the host from the first step of a
//! request to its end, for given reports of the host.

use crate::bus::EventView;
use crate::driver::frame_read;
use crate::driver::read_outcome;
use crate::driver::DriverError;
use crate::driver::DriverPhase;
use crate::driver::DriverState;
use crate::driver::Step;
use crate::poller::ready_query;
use crate::poller::PollerState;
use vstd::prelude::*;

verus! {

/// The driver after the host has reported `events` one after the other, and
/// the steps that it answered with, in order.
pub open spec fn replay(state: DriverState, events: Seq<EventView>) -> (DriverState, Seq<Step>)
    decreases events.len(),
{
    if events.len() == 0 {
        (state, Seq::empty())
    } else {
        let (next, step) = state.on_event(events[0]);
        let (last, steps) = replay(next, events.drop_first());
        (last, seq![step] + steps)
    }
}

/// The reports of a host whose bus fails `attempts` transactions in a row:
/// each time the failure, then the end of the delay that follows it.
pub open spec fn failed_attempts(attempts: nat) -> Seq<EventView> {
    Seq::new(
        2 * attempts,
        |i: int|
            if i % 2 == 0 {
                EventView::Failed
            } else {
                EventView::Elapsed
            },
    )
}

/// `retries` times a delay of `delay_ms` and the readiness query after it.
pub open spec fn retry_steps(address: u8, delay_ms: u64, retries: nat) -> Seq<Step> {
    Seq::new(
        2 * retries,
        |i: int|
            if i % 2 == 0 {
                Step::Sleep { millis: delay_ms }
            } else {
                Step::Transact(ready_query(address))
            },
    )
}

/// `attempts` times the readiness query and a delay of `delay_ms` after it,
/// and at the end the failure of the read for want of an answer.
pub open spec fn exhausted_steps(address: u8, delay_ms: u64, attempts: nat) -> Seq<Step> {
    Seq::new(
        2 * attempts + 1,
        |i: int|
            if i == 2 * attempts {
                Step::Done(Err(DriverError::DataNotReady))
            } else if i % 2 == 0 {
                Step::Transact(ready_query(address))
            } else {
                Step::Sleep { millis: delay_ms }
            },
    )
}

/// How many of the steps are transactions.
pub open spec fn transactions_in(steps: Seq<Step>) -> nat
    decreases steps.len(),
{
    if steps.len() == 0 {
        0
    } else if steps[0] is Transact {
        1 + transactions_in(steps.drop_first())
    } else {
        transactions_in(steps.drop_first())
    }
}

/// The most transactions that the request under way can still ask for: in a
/// handshake, the attempts that are left and the read of the frame.
pub open spec fn transactions_owed(state: DriverState) -> nat {
    match state.phase {
        DriverPhase::Polling(poller) => if poller.stage is Finished {
            0
        } else {
            poller.left + 1
        },
        _ => 0,
    }
}

/// Reports taken in two parts give what they give when taken at once.
pub proof fn lemma_replay_split(state: DriverState, head: Seq<EventView>, tail: Seq<EventView>)
    ensures
        replay(state, head + tail) == ({
            let (middle, first_steps) = replay(state, head);
            let (last, more_steps) = replay(middle, tail);
            (last, first_steps + more_steps)
        }),
    decreases head.len(),
{
    let (middle, first_steps) = replay(state, head);
    let (last, more_steps) = replay(middle, tail);
    if head.len() == 0 {
        assert(head + tail =~= tail);
        assert(first_steps + more_steps =~= more_steps);
    } else {
        let (next, step) = state.on_event(head[0]);
        assert((head + tail)[0] == head[0]);
        assert((head + tail).drop_first() =~= head.drop_first() + tail);
        lemma_replay_split(next, head.drop_first(), tail);
        let (_, rest_steps) = replay(next, head.drop_first());
        assert(seq![step] + (rest_steps + more_steps) =~= (seq![step] + rest_steps) + more_steps);
    }
}

/// Two reports give two steps.
proof fn lemma_replay_two(state: DriverState, first: EventView, second: EventView)
    ensures
        replay(state, seq![first, second]) == ({
            let (middle, step1) = state.on_event(first);
            let (last, step2) = middle.on_event(second);
            (last, seq![step1, step2])
        }),
{
    let events = seq![first, second];
    let (middle, step1) = state.on_event(first);
    let (last, step2) = middle.on_event(second);
    assert(events.drop_first() =~= seq![second]);
    assert(events.drop_first().drop_first() =~= Seq::<EventView>::empty());
    reveal_with_fuel(replay, 3);
    assert(seq![step1] + (seq![step2] + Seq::<Step>::empty()) =~= seq![step1, step2]);
}

/// While attempts are left, each failed query is followed by the delay and
/// the next query, and costs one attempt.
proof fn lemma_failed_attempts_retry(state: DriverState, poller: PollerState, failures: nat)
    requires
        state.phase == DriverPhase::Polling(poller),
        poller.stage is Querying,
        failures <= poller.left,
    ensures
        replay(state, failed_attempts(failures)) == (
            state.at(
                DriverPhase::Polling(
                    PollerState { left: (poller.left - failures) as nat, ..poller },
                ),
            ),
            retry_steps(poller.address, poller.delay_ms, failures),
        ),
    decreases failures,
{
    if failures == 0 {
        assert(failed_attempts(0) =~= Seq::<EventView>::empty());
        assert(retry_steps(poller.address, poller.delay_ms, 0) =~= Seq::<Step>::empty());
    } else {
        let rest = (failures - 1) as nat;
        let pair = seq![EventView::Failed, EventView::Elapsed];
        assert(failed_attempts(failures) =~= pair + failed_attempts(rest));
        lemma_replay_split(state, pair, failed_attempts(rest));
        lemma_replay_two(state, EventView::Failed, EventView::Elapsed);
        let next_poller = PollerState { left: (poller.left - 1) as nat, ..poller };
        let next = state.at(DriverPhase::Polling(next_poller));
        lemma_failed_attempts_retry(next, next_poller, rest);
        assert(seq![
            Step::Sleep { millis: poller.delay_ms },
            Step::Transact(ready_query(poller.address)),
        ] + retry_steps(poller.address, poller.delay_ms, rest) =~= retry_steps(
            poller.address,
            poller.delay_ms,
            failures,
        ));
    }
}

/// The steps of an exhausted read hold exactly as many transactions as
/// attempts were made.
pub proof fn lemma_exhausted_steps_count(address: u8, delay_ms: u64, attempts: nat)
    ensures
        exhausted_steps(address, delay_ms, attempts).len() == 2 * attempts + 1,
        transactions_in(exhausted_steps(address, delay_ms, attempts)) == attempts,
    decreases attempts,
{
    let steps = exhausted_steps(address, delay_ms, attempts);
    if attempts == 0 {
        assert(transactions_in(steps.drop_first()) == 0);
    } else {
        let rest = exhausted_steps(address, delay_ms, (attempts - 1) as nat);
        lemma_exhausted_steps_count(address, delay_ms, (attempts - 1) as nat);
        let tail = steps.drop_first();
        assert(steps[0] is Transact);
        assert(tail.len() > 0 && tail[0] is Sleep);
        assert(tail.drop_first() =~= rest);
        assert(transactions_in(tail) == transactions_in(tail.drop_first()));
        assert(transactions_in(steps) == 1 + transactions_in(tail));
    }
}

/// A read on a bus that fails every transaction: the driver puts the
/// readiness query on the bus exactly as often as its budget allows, asks for
/// the delay of its budget after each failure, then fails the read with
/// `DataNotReady`. It never asks for the frame, and is active and idle again.
pub proof fn lemma_read_exhausts_budget(state: DriverState)
    requires
        state.phase is Active,
    ensures
        ({
            let (started, first) = state.on_get_readings();
            let (last, steps) = replay(started, failed_attempts(state.budget.attempts as nat));
            &&& seq![first] + steps == exhausted_steps(
                state.address,
                state.budget.delay_ms,
                state.budget.attempts as nat,
            )
            &&& transactions_in(seq![first] + steps) == state.budget.attempts
            &&& last == state
        }),
{
    let attempts = state.budget.attempts as nat;
    let (started, first) = state.on_get_readings();
    let (last, steps) = replay(started, failed_attempts(attempts));
    let expected = exhausted_steps(state.address, state.budget.delay_ms, attempts);
    lemma_exhausted_steps_count(state.address, state.budget.delay_ms, attempts);
    if attempts == 0 {
        assert(failed_attempts(0) =~= Seq::<EventView>::empty());
        assert(seq![first] + steps =~= expected);
    } else {
        let retries = (attempts - 1) as nat;
        let poller = started.phase->Polling_0;
        let pair = seq![EventView::Failed, EventView::Elapsed];
        assert(failed_attempts(attempts) =~= failed_attempts(retries) + pair);
        lemma_replay_split(started, failed_attempts(retries), pair);
        lemma_failed_attempts_retry(started, poller, retries);
        let (middle, retried) = replay(started, failed_attempts(retries));
        lemma_replay_two(middle, EventView::Failed, EventView::Elapsed);
        assert(seq![first] + steps =~= expected);
    }
}

/// A read on a bus that fails the first `failures` readiness queries and
/// carries out what follows: after the query that gets through, the driver
/// asks for the frame whatever the sensor said of its readiness, and the read
/// ends on what the frame decodes to.
pub proof fn lemma_read_follows_any_answer(
    state: DriverState,
    failures: nat,
    response: Seq<u8>,
    frame: Seq<u8>,
)
    requires
        state.phase is Active,
        failures < state.budget.attempts,
    ensures
        ({
            let (started, first) = state.on_get_readings();
            let (last, steps) = replay(
                started,
                failed_attempts(failures) + seq![
                    EventView::Completed(response),
                    EventView::Completed(frame),
                ],
            );
            &&& first == Step::Transact(ready_query(state.address))
            &&& steps == retry_steps(state.address, state.budget.delay_ms, failures) + seq![
                Step::Transact(frame_read(state.address)),
                Step::Done(read_outcome(frame)),
            ]
            &&& last == state
        }),
{
    let (started, first) = state.on_get_readings();
    let poller = started.phase->Polling_0;
    let answers = seq![EventView::Completed(response), EventView::Completed(frame)];
    lemma_replay_split(started, failed_attempts(failures), answers);
    lemma_failed_attempts_retry(started, poller, failures);
    let (middle, retried) = replay(started, failed_attempts(failures));
    lemma_replay_two(middle, EventView::Completed(response), EventView::Completed(frame));
}

/// Whatever the host reports, in whatever order, the request under way asks
/// for no more transactions than it still owes.
pub proof fn lemma_transactions_are_bounded(state: DriverState, events: Seq<EventView>)
    ensures
        transactions_in(replay(state, events).1) + transactions_owed(replay(state, events).0)
            <= transactions_owed(state),
    decreases events.len(),
{
    if events.len() > 0 {
        let (next, step) = state.on_event(events[0]);
        let (last, steps) = replay(next, events.drop_first());
        lemma_transactions_are_bounded(next, events.drop_first());
        assert((seq![step] + steps).drop_first() =~= steps);
    }
}

/// A read never costs more transactions than the attempts of the budget and
/// one more, the read of the frame, whatever the host reports.
pub proof fn lemma_read_is_bounded(state: DriverState, events: Seq<EventView>)
    requires
        state.phase is Active,
    ensures
        ({
            let (started, first) = state.on_get_readings();
            let (last, steps) = replay(started, events);
            transactions_in(seq![first] + steps) <= state.budget.attempts + 1
        }),
{
    let (started, first) = state.on_get_readings();
    let (last, steps) = replay(started, events);
    lemma_transactions_are_bounded(started, events);
    assert((seq![first] + steps).drop_first() =~= steps);
}

} // verus!
