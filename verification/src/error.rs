//! The two kinds of error that a connection surfaces.

use crate::event::RawEvent;
use vstd::prelude::*;

verus! {

/// The most recent problem of a connection. Neither kind ends the connection by itself.
#[derive(Debug)]
pub enum UseEventSourceError<E> {
    /// The transport raised an error event. The event says nothing more about the problem.
    Event(RawEvent),
    /// A payload could not be decoded, for the reason given.
    Deserialize(E),
}

} // verus!
