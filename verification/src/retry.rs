//! The reconnection policy: a counter, a limit, and the decision taken on each error.

use vstd::prelude::*;

verus! {

/// The state number with which a transport reports that it has given up on its own
/// reconnection and is closed for good.
pub const TRANSPORT_CLOSED: u16 = 2;

/// Whether a transport's state number says that the transport will not reconnect by itself.
pub open spec fn is_terminal(transport_state: u16) -> bool {
    transport_state == TRANSPORT_CLOSED
}

/// Tells a transport that is closed for good from one that still retries on its own.
pub fn transport_is_terminal(transport_state: u16) -> (terminal: bool)
    ensures
        terminal == is_terminal(transport_state),
{
    transport_state == TRANSPORT_CLOSED
}

/// What the policy remembers between errors.
#[derive(Clone, Copy, Debug, PartialEq, Eq, Structural)]
pub struct RetryState {
    /// Set by a user's close, cleared by a user's open. While set, nothing reconnects.
    pub explicitly_closed: bool,
    /// The failed reconnect cycles counted since the last user's open.
    pub attempts: u64,
}

/// What the host has to do after an error.
#[derive(Clone, Copy, Debug, PartialEq, Eq, Structural)]
pub enum RetryDecision {
    /// Leave the transport alone and schedule nothing.
    DoNothing,
    /// Shut the failed transport down and connect again after `delay_ms` milliseconds.
    ScheduleRetry { delay_ms: u64 },
    /// Shut the failed transport down and report that the attempts are used up.
    Exhausted,
}

impl RetryDecision {
    /// Whether the decision has the failed transport shut down: every decision does but
    /// `DoNothing`.
    pub open spec fn shuts_transport(self) -> bool {
        !(self is DoNothing)
    }

    /// Whether the host has to shut down the transport that reported the error.
    pub fn closes_transport(&self) -> (shut: bool)
        ensures
            shut == self.shuts_transport(),
    {
        match self {
            RetryDecision::DoNothing => false,
            RetryDecision::ScheduleRetry { .. } => true,
            RetryDecision::Exhausted => true,
        }
    }
}

impl RetryState {
    /// The state after a user's open: nothing counted, nothing suppressed.
    pub open spec fn fresh() -> RetryState {
        RetryState { explicitly_closed: false, attempts: 0 }
    }

    /// Whether an error is counted as a failed reconnect cycle.
    ///
    /// It is counted when the transport is closed for good, the user has not closed the
    /// connection, reconnection is enabled, and the limit has not been reached yet.
    pub open spec fn counts(self, limit: u64, terminal: bool) -> bool {
        terminal && !self.explicitly_closed && limit > 0 && self.attempts < limit
    }

    /// The state after one error.
    pub open spec fn after_error(self, limit: u64, terminal: bool) -> RetryState {
        if self.counts(limit, terminal) {
            RetryState { explicitly_closed: self.explicitly_closed, attempts: (self.attempts + 1) as u64 }
        } else {
            self
        }
    }

    /// The decision taken on one error.
    pub open spec fn decision(self, limit: u64, interval: u64, terminal: bool) -> RetryDecision {
        if !self.counts(limit, terminal) {
            RetryDecision::DoNothing
        } else if self.attempts + 1 < limit {
            RetryDecision::ScheduleRetry { delay_ms: interval }
        } else {
            RetryDecision::Exhausted
        }
    }

    /// The state of a connection that was never opened.
    pub fn new() -> (state: RetryState)
        ensures
            state == RetryState::fresh(),
    {
        RetryState { explicitly_closed: false, attempts: 0 }
    }

    /// Counts one error, if it counts, and decides what follows from it.
    pub fn on_error(&mut self, limit: u64, interval: u64, terminal: bool) -> (decision: RetryDecision)
        ensures
            *final(self) == old(self).after_error(limit, terminal),
            decision == old(self).decision(limit, interval, terminal),
    {
        if terminal && !self.explicitly_closed && limit > 0 && self.attempts < limit {
            self.attempts = self.attempts + 1;
            if self.attempts < limit {
                RetryDecision::ScheduleRetry { delay_ms: interval }
            } else {
                RetryDecision::Exhausted
            }
        } else {
            RetryDecision::DoNothing
        }
    }
}

} // verus!
