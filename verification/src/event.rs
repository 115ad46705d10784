//! What the transport hands over when it raises an event.

use vstd::prelude::*;

verus! {

/// One event as the transport delivered it: the channel it came on and its payload.
#[derive(Clone, Debug, PartialEq, Eq)]
pub struct RawEvent {
    /// The name of the channel, such as `"notice"` or `"error"`.
    pub event_type: String,
    /// The payload, where the event carries a text.
    pub data: Option<String>,
}

impl RawEvent {
    /// An event on the channel `event_type` with the payload `data`.
    pub fn new(event_type: String, data: Option<String>) -> (event: RawEvent)
        ensures
            event.event_type == event_type,
            event.data == data,
    {
        RawEvent { event_type, data }
    }
}

} // verus!
