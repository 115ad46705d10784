//! The status of a connection as consumers observe it.

use vstd::prelude::*;

verus! {

/// Where a connection stands. Exactly one of these holds at any time.
#[derive(Clone, Copy, Debug, PartialEq, Eq, Structural)]
pub enum ConnectionReadyState {
    /// A transport was created and has not reported yet.
    Connecting,
    /// The transport reported that the stream is established.
    Open,
    /// No stream is established.
    Closed,
}

} // verus!
