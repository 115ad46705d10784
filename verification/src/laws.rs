//! What holds of every connection and of every history, proved from the model.

use crate::error::UseEventSourceError;
use crate::event::RawEvent;
use crate::model::Model;
use crate::options::OptionsView;
use crate::ready_state::ConnectionReadyState;
use crate::retry::{is_terminal, RetryDecision, RetryState};
use crate::trace::{terminal_errors, unattended, Step};
use vstd::prelude::*;

verus! {

/// The smaller of two numbers.
pub open spec fn min(a: int, b: int) -> int {
    if a <= b {
        a
    } else {
        b
    }
}

/// Every step keeps a connection valid.
pub proof fn law_step_keeps_valid<T, E>(model: Model<T, E>, step: Step<T, E>)
    requires
        model.wf(),
    ensures
        model.step(step).wf(),
        model.step(step).url == model.url,
        model.step(step).options == model.options,
{
}

/// Every history keeps a connection valid and leaves its configuration alone.
pub proof fn law_run_keeps_valid<T, E>(model: Model<T, E>, steps: Seq<Step<T, E>>)
    requires
        model.wf(),
    ensures
        model.run(steps).wf(),
        model.run(steps).url == model.url,
        model.run(steps).options == model.options,
    decreases steps.len(),
{
    if steps.len() > 0 {
        law_step_keeps_valid(model, steps[0]);
        law_run_keeps_valid(model.step(steps[0]), steps.drop_first());
    }
}

/// With a reconnect limit of zero reconnection is disabled: no error is counted and
/// none schedules a retry or reports a failure, whatever was counted before and
/// whatever state the transport is in.
pub proof fn law_zero_limit_decides_nothing(retry: RetryState, interval: u64, terminal: bool)
    ensures
        retry.decision(0, interval, terminal) == RetryDecision::DoNothing,
        retry.after_error(0, terminal) == retry,
{
}

/// With a reconnect limit of zero no history ever schedules a retry or reports a failure.
pub proof fn law_zero_limit_never_retries<T, E>(model: Model<T, E>, steps: Seq<Step<T, E>>)
    requires
        model.options.reconnect_limit == 0,
    ensures
        model.retries_scheduled(steps) == 0,
        model.failures_reported(steps) == 0,
    decreases steps.len(),
{
    if steps.len() > 0 {
        law_zero_limit_never_retries(model.step(steps[0]), steps.drop_first());
    }
}

/// Errors in a row, counted from any point.
///
/// Take a connection that is live, not closed by the user, with a limit `L` above
/// zero and `a` attempts counted, and a history without an open or a close in which
/// `n` errors come from a transport that is closed for good. Then `min(a + n, L)`
/// attempts are counted afterwards, each of them but the `L`-th has scheduled a retry,
/// and the `L`-th, if the history reaches it, has reported the failure: once.
pub proof fn law_errors_in_a_row<T, E>(model: Model<T, E>, steps: Seq<Step<T, E>>)
    requires
        model.wf(),
        model.options.interactive,
        !model.retry.explicitly_closed,
        model.options.reconnect_limit > 0,
        unattended(steps),
    ensures
        !model.run(steps).retry.explicitly_closed,
        model.run(steps).retry.attempts == min(
            model.retry.attempts + terminal_errors(steps),
            model.options.reconnect_limit as int,
        ),
        model.retries_scheduled(steps) == min(
            model.retry.attempts + terminal_errors(steps),
            model.options.reconnect_limit - 1,
        ) - min(model.retry.attempts as int, model.options.reconnect_limit - 1),
        model.failures_reported(steps) == if model.retry.attempts < model.options.reconnect_limit
            && model.retry.attempts + terminal_errors(steps) >= model.options.reconnect_limit {
            1nat
        } else {
            0nat
        },
    decreases steps.len(),
{
    if steps.len() > 0 {
        let next = model.step(steps[0]);
        let rest = steps.drop_first();
        assert(!steps[0].is_manual());
        assert forall|i: int| 0 <= i < rest.len() implies !(#[trigger] rest[i]).is_manual() by {
            assert(rest[i] == steps[i + 1]);
        }
        law_step_keeps_valid(model, steps[0]);
        law_errors_in_a_row(next, rest);
    }
}

/// `N` errors in a row after an open.
///
/// After the user's open, a history without an open or a close in which `N` errors
/// come from a transport that is closed for good counts `min(N, L)` attempts, where
/// `L` is the limit and above zero. It schedules `min(N, L - 1)` retries, which is
/// every attempt but the `L`-th, so `N` of them while `N` is below `L`, and it reports
/// the failure once if `N` reaches `L` and not at all before.
pub proof fn law_errors_after_open<T, E>(model: Model<T, E>, steps: Seq<Step<T, E>>)
    requires
        model.wf(),
        model.options.interactive,
        model.options.reconnect_limit > 0,
        unattended(steps),
    ensures
        model.after_open().run(steps).retry.attempts == min(
            terminal_errors(steps) as int,
            model.options.reconnect_limit as int,
        ),
        model.after_open().retries_scheduled(steps) == min(
            terminal_errors(steps) as int,
            model.options.reconnect_limit - 1,
        ),
        model.after_open().failures_reported(steps) == if terminal_errors(steps)
            >= model.options.reconnect_limit {
            1nat
        } else {
            0nat
        },
        terminal_errors(steps) < model.options.reconnect_limit ==> model.after_open().retries_scheduled(
            steps,
        ) == terminal_errors(steps),
{
    law_step_keeps_valid(model, Step::Open);
    law_errors_in_a_row(model.after_open(), steps);
}

/// The decision on the next error after `k` errors in a row.
///
/// Counted from the user's open, with a limit `L` above zero: the error number `k + 1`
/// of a transport that is closed for good schedules a retry after the configured
/// interval while `k + 1 < L`, reports the failure when `k + 1 == L`, and does nothing
/// once the limit has been reached.
pub proof fn law_decision_after_errors<T, E>(
    model: Model<T, E>,
    steps: Seq<Step<T, E>>,
    transport_state: u16,
)
    requires
        model.wf(),
        model.options.interactive,
        model.options.reconnect_limit > 0,
        unattended(steps),
        is_terminal(transport_state),
    ensures
        model.after_open().run(steps).error_decision(transport_state) == if terminal_errors(steps)
            + 1 < model.options.reconnect_limit {
            RetryDecision::ScheduleRetry { delay_ms: model.options.reconnect_interval }
        } else if terminal_errors(steps) + 1 == model.options.reconnect_limit {
            RetryDecision::Exhausted
        } else {
            RetryDecision::DoNothing
        },
{
    law_step_keeps_valid(model, Step::Open);
    law_errors_in_a_row(model.after_open(), steps);
    law_run_keeps_valid(model.after_open(), steps);
}

/// An error is counted once, whatever channels the connection listens to, and it is
/// counted exactly when the failed transport is shut down.
pub proof fn law_errors_count_once<T, E>(
    model: Model<T, E>,
    names: Seq<Seq<char>>,
    event: RawEvent,
    transport_state: u16,
)
    requires
        model.wf(),
        model.options.interactive,
    ensures
        ({
            let other = Model { options: OptionsView { named_events: names, ..model.options }, ..model };
            &&& other.after_transport_error(event, transport_state).retry
                == model.after_transport_error(event, transport_state).retry
            &&& other.error_decision(transport_state) == model.error_decision(transport_state)
        }),
        model.after_transport_error(event, transport_state).retry.attempts <= model.retry.attempts
            + 1,
        model.error_decision(transport_state).shuts_transport() <==> model.after_transport_error(
            event,
            transport_state,
        ).retry.attempts == model.retry.attempts + 1,
{
}

/// Each attempt is counted on an error: the count grows by one, and only at an error of
/// a transport that is closed for good, on a connection that the user has not closed
/// and that is below its limit. An open sets the count to zero. Nothing else moves it.
pub proof fn law_attempts_move_only_on_errors<T, E>(model: Model<T, E>, step: Step<T, E>)
    requires
        model.wf(),
    ensures
        model.step(step).retry.attempts != model.retry.attempts ==> {
            ||| step is Open && model.step(step).retry.attempts == 0
            ||| {
                &&& step.is_terminal_error()
                &&& !model.retry.explicitly_closed
                &&& model.retry.attempts < model.options.reconnect_limit
                &&& model.step(step).retry.attempts == model.retry.attempts + 1
            }
        },
        model.step(step).retry.explicitly_closed != model.retry.explicitly_closed ==> step.is_manual(),
{
}

/// Reaching the limit is final until the user opens again: a history without an open
/// counts no further attempt, schedules no retry and reports no failure.
pub proof fn law_limit_reached_is_final<T, E>(model: Model<T, E>, steps: Seq<Step<T, E>>)
    requires
        model.wf(),
        model.retry.attempts == model.options.reconnect_limit,
        forall|i: int| 0 <= i < steps.len() ==> !(#[trigger] steps[i] is Open),
    ensures
        model.run(steps).retry.attempts == model.options.reconnect_limit,
        model.retries_scheduled(steps) == 0,
        model.failures_reported(steps) == 0,
    decreases steps.len(),
{
    if steps.len() > 0 {
        let rest = steps.drop_first();
        assert(!(steps[0] is Open));
        assert forall|i: int| 0 <= i < rest.len() implies !(#[trigger] rest[i] is Open) by {
            assert(rest[i] == steps[i + 1]);
        }
        law_step_keeps_valid(model, steps[0]);
        law_limit_reached_is_final(model.step(steps[0]), rest);
    }
}

/// A connection that has connected once holds a transport or was closed by the user,
/// and stays so whatever happens.
pub proof fn law_connected_once<T, E>(model: Model<T, E>, steps: Seq<Step<T, E>>)
    requires
        model.wf(),
        model.has_transport || model.retry.explicitly_closed,
    ensures
        model.run(steps).has_transport || model.run(steps).retry.explicitly_closed,
    decreases steps.len(),
{
    if steps.len() > 0 {
        law_step_keeps_valid(model, steps[0]);
        law_connected_once(model.step(steps[0]), steps.drop_first());
    }
}

/// The status follows what happened last: connecting after a connect that asks for a
/// transport, open after the transport's report of an open stream, closed after a
/// transport's error and after a close that gives a transport up. A payload or a named
/// event leaves the status alone.
pub proof fn law_status_follows_the_last_step<T, E>(model: Model<T, E>, step: Step<T, E>)
    requires
        model.wf(),
        model.options.interactive,
    ensures
        match step {
            Step::Open => model.step(step).ready_state == ConnectionReadyState::Connecting,
            Step::Connect => model.step(step).ready_state == if model.connects() {
                ConnectionReadyState::Connecting
            } else {
                model.ready_state
            },
            Step::Close => model.step(step).ready_state == if model.has_transport {
                ConnectionReadyState::Closed
            } else {
                model.ready_state
            },
            Step::TransportOpen => model.step(step).ready_state == ConnectionReadyState::Open,
            Step::TransportError { .. } => model.step(step).ready_state
                == ConnectionReadyState::Closed,
            Step::Payload { .. } => model.step(step).ready_state == model.ready_state,
            Step::NamedEvent { .. } => model.step(step).ready_state == model.ready_state,
        },
{
}

/// No step leaves a transport behind: a step that asks for a new transport while one is
/// held asks to shut the held one down first, and a step after which no transport is
/// held has asked to shut down the one that was.
pub proof fn law_step_leaves_no_transport_behind<T, E>(model: Model<T, E>, step: Step<T, E>)
    ensures
        model.step_connects(step) && model.has_transport ==> model.step_shuts_held(step),
        model.has_transport && !model.step(step).has_transport ==> model.step_shuts_held(step),
        model.step_shuts_held(step) ==> model.has_transport,
        model.step_connects(step) ==> model.step(step).has_transport,
        model.held() + (if model.step_connects(step) {
            1nat
        } else {
            0nat
        }) == (if model.step_shuts_held(step) {
            1nat
        } else {
            0nat
        }) + model.step(step).held(),
{
}

/// At most one transport is live at any moment, and it is the one held.
///
/// Over every history, the transports that the host was asked to create, with the one
/// held at the start, are the ones it was asked to shut down when they were let go,
/// with the one held at the end. So every transport ever created is either held or has
/// had its shutdown asked for: a retry that comes due after the user has opened again
/// shuts the transport of that open before it connects.
pub proof fn law_one_live_transport<T, E>(model: Model<T, E>, steps: Seq<Step<T, E>>)
    ensures
        model.held() + model.transports_requested(steps) == model.transports_shut(steps)
            + model.run(steps).held(),
        model.run(steps).held() <= 1,
    decreases steps.len(),
{
    if steps.len() > 0 {
        law_step_leaves_no_transport_behind(model, steps[0]);
        law_one_live_transport(model.step(steps[0]), steps.drop_first());
    }
}

/// After the user's close nothing connects until the user opens again.
///
/// Take a connection that holds a transport, or that the user has closed before, or
/// that is inert. After a close a retry that comes due changes nothing and asks for no
/// transport, and so does every history without an open: the connection holds no
/// transport at its end, and the host was asked for none.
pub proof fn law_close_suppresses_retries<T, E>(model: Model<T, E>, steps: Seq<Step<T, E>>)
    requires
        model.wf(),
        model.options.interactive ==> model.has_transport || model.retry.explicitly_closed,
        forall|i: int| 0 <= i < steps.len() ==> !(#[trigger] steps[i] is Open),
    ensures
        !model.after_close().connects(),
        model.after_close().after_connect() == model.after_close(),
        model.after_close().transports_requested(steps) == 0,
        !model.after_close().run(steps).has_transport,
    decreases steps.len(),
{
    let closed = model.after_close();
    if steps.len() > 0 {
        let next = closed.step(steps[0]);
        let rest = steps.drop_first();
        assert(!(steps[0] is Open));
        assert forall|i: int| 0 <= i < rest.len() implies !(#[trigger] rest[i] is Open) by {
            assert(rest[i] == steps[i + 1]);
        }
        law_step_keeps_valid(model, Step::Close);
        law_step_keeps_valid(closed, steps[0]);
        assert(next.after_close() == next);
        law_close_suppresses_retries(next, rest);
    }
}

/// An open always starts the count anew and forgets an earlier close, whatever state
/// the connection is in; a transport that is held is given up before a new one is
/// asked for, so that a live connection holds exactly the new one afterwards.
pub proof fn law_open_resets<T, E>(model: Model<T, E>)
    requires
        model.wf(),
    ensures
        model.after_open().retry == RetryState::fresh(),
        model.options.interactive ==> model.after_open() == (Model {
            retry: RetryState::fresh(),
            ..model.after_close()
        }).after_connect(),
        model.options.interactive ==> model.after_open().has_transport,
        model.options.interactive ==> model.after_open().ready_state
            == ConnectionReadyState::Connecting,
{
}

/// A decoded value replaces the latest value and leaves the latest error alone; a
/// failure to decode replaces the latest error and leaves the latest value alone.
/// Neither touches the status, the transport or the attempts.
pub proof fn law_decode_touches_one_cell<T, E>(model: Model<T, E>, decoded: Result<T, E>)
    requires
        model.options.interactive,
    ensures
        decoded matches Ok(value) ==> model.after_decode(decoded) == (Model {
            data: Some(value),
            ..model
        }),
        decoded matches Err(reason) ==> model.after_decode(decoded) == (Model {
            error: Some(UseEventSourceError::Deserialize(reason)),
            ..model
        }),
        decoded is Ok ==> model.after_decode(decoded).error == model.error,
        decoded is Err ==> model.after_decode(decoded).data == model.data,
        model.after_decode(decoded).ready_state == model.ready_state,
        model.after_decode(decoded).has_transport == model.has_transport,
        model.after_decode(decoded).retry == model.retry,
        model.after_decode(decoded).event == model.event,
{
}

/// An inert connection never changes: every history leaves it as it was constructed,
/// asks for no transport, schedules no retry and reports no failure.
pub proof fn law_inert_never_changes<T, E>(model: Model<T, E>, steps: Seq<Step<T, E>>)
    requires
        model.wf(),
        !model.options.interactive,
    ensures
        model.run(steps) == model,
        model.pristine(),
        model.transports_requested(steps) == 0,
        model.retries_scheduled(steps) == 0,
        model.failures_reported(steps) == 0,
    decreases steps.len(),
{
    if steps.len() > 0 {
        assert(model.step(steps[0]) == model);
        law_inert_never_changes(model, steps.drop_first());
    }
}

} // verus!
