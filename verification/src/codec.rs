//! Turning the text of a message into a typed value.

use vstd::prelude::*;

verus! {

/// A decoder from the text of a message to a value of type `T`.
///
/// Nothing is assumed of an implementation: whatever `decode` returns is
/// handled, a value and a failure alike.
pub trait StringCodec<T> {
    /// Why a text could not be decoded.
    type Error;

    /// Decodes the text of one message.
    fn decode(&self, text: String) -> Result<T, Self::Error>;
}

} // verus!
