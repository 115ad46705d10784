//! Histories of a connection: what a sequence of steps makes of a `Model`, and what
//! the host was asked to do along the way.

use crate::event::RawEvent;
use crate::model::Model;
use crate::retry::{is_terminal, RetryDecision};
use vstd::prelude::*;

verus! {

/// One thing that can happen to a connection.
pub enum Step<T, E> {
    /// The user opens the connection.
    Open,
    /// The user closes the connection.
    Close,
    /// A connect on its own: a scheduled retry has come due.
    Connect,
    /// The transport reports that the stream is established.
    TransportOpen,
    /// A transport in the state `transport_state` reports the error `event`.
    TransportError { event: RawEvent, transport_state: u16 },
    /// A payload has been through the codec with the outcome `decoded`.
    Payload { decoded: Result<T, E> },
    /// The event `event` arrives on a named channel.
    NamedEvent { event: RawEvent },
}

impl<T, E> Step<T, E> {
    /// Whether the step is an error of a transport that is closed for good.
    pub open spec fn is_terminal_error(self) -> bool {
        self matches Step::TransportError { transport_state, .. } && is_terminal(transport_state)
    }

    /// Whether the step is the user's doing: an open or a close.
    pub open spec fn is_manual(self) -> bool {
        self is Open || self is Close
    }
}

/// How many steps of a history are errors of a transport that is closed for good.
pub open spec fn terminal_errors<T, E>(steps: Seq<Step<T, E>>) -> nat
    decreases steps.len(),
{
    if steps.len() == 0 {
        0
    } else {
        (if steps[0].is_terminal_error() {
            1nat
        } else {
            0nat
        }) + terminal_errors(steps.drop_first())
    }
}

/// Whether no step of a history is an open or a close.
pub open spec fn unattended<T, E>(steps: Seq<Step<T, E>>) -> bool {
    forall|i: int| 0 <= i < steps.len() ==> !(#[trigger] steps[i]).is_manual()
}

impl<T, E> Model<T, E> {
    /// The connection after one step.
    pub open spec fn step(self, step: Step<T, E>) -> Self {
        match step {
            Step::Open => self.after_open(),
            Step::Close => self.after_close(),
            Step::Connect => self.after_connect(),
            Step::TransportOpen => self.after_transport_open(),
            Step::TransportError { event, transport_state } => self.after_transport_error(
                event,
                transport_state,
            ),
            Step::Payload { decoded } => self.after_decode(decoded),
            Step::NamedEvent { event } => self.after_named_event(event),
        }
    }

    /// What the policy decides at one step. Only an error has anything decided.
    pub open spec fn step_decision(self, step: Step<T, E>) -> RetryDecision {
        match step {
            Step::TransportError { transport_state, .. } => self.error_decision(transport_state),
            _ => RetryDecision::DoNothing,
        }
    }

    /// Whether the host is asked for a new transport at one step.
    pub open spec fn step_connects(self, step: Step<T, E>) -> bool {
        match step {
            Step::Open => self.options.interactive,
            Step::Connect => self.connects(),
            _ => false,
        }
    }

    /// Whether the host is asked at one step to shut down the transport that the
    /// connection holds, because the step gives it up or replaces it.
    pub open spec fn step_shuts_held(self, step: Step<T, E>) -> bool {
        match step {
            Step::Open => self.close_shuts_transport(),
            Step::Close => self.close_shuts_transport(),
            Step::Connect => self.connect_shuts_transport(),
            _ => false,
        }
    }

    /// How many transports the connection holds: one or none.
    pub open spec fn held(self) -> nat {
        if self.has_transport {
            1
        } else {
            0
        }
    }

    /// The connection after a history.
    pub open spec fn run(self, steps: Seq<Step<T, E>>) -> Self
        decreases steps.len(),
    {
        if steps.len() == 0 {
            self
        } else {
            self.step(steps[0]).run(steps.drop_first())
        }
    }

    /// How many retries are scheduled in the course of a history.
    pub open spec fn retries_scheduled(self, steps: Seq<Step<T, E>>) -> nat
        decreases steps.len(),
    {
        if steps.len() == 0 {
            0
        } else {
            (if self.step_decision(steps[0]) is ScheduleRetry {
                1nat
            } else {
                0nat
            }) + self.step(steps[0]).retries_scheduled(steps.drop_first())
        }
    }

    /// How many times a history reports that the attempts are used up.
    pub open spec fn failures_reported(self, steps: Seq<Step<T, E>>) -> nat
        decreases steps.len(),
    {
        if steps.len() == 0 {
            0
        } else {
            (if self.step_decision(steps[0]) is Exhausted {
                1nat
            } else {
                0nat
            }) + self.step(steps[0]).failures_reported(steps.drop_first())
        }
    }

    /// How many transports the host is asked for in the course of a history.
    pub open spec fn transports_requested(self, steps: Seq<Step<T, E>>) -> nat
        decreases steps.len(),
    {
        if steps.len() == 0 {
            0
        } else {
            (if self.step_connects(steps[0]) {
                1nat
            } else {
                0nat
            }) + self.step(steps[0]).transports_requested(steps.drop_first())
        }
    }

    /// How many times in the course of a history the host is asked to shut down the
    /// transport that the connection holds.
    pub open spec fn transports_shut(self, steps: Seq<Step<T, E>>) -> nat
        decreases steps.len(),
    {
        if steps.len() == 0 {
            0
        } else {
            (if self.step_shuts_held(steps[0]) {
                1nat
            } else {
                0nat
            }) + self.step(steps[0]).transports_shut(steps.drop_first())
        }
    }
}

} // verus!
