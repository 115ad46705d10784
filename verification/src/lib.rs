//! Connection management for a stream of server-sent events, as a verified state machine.
//!
//! A connection decodes what the stream delivers into typed values, keeps track of its
//! own health, and reconnects after failures of the transport, a bounded number of
//! times. It performs no input or output itself: every operation returns what the host
//! has to do, and the host reports back what the transport does.
//!
//! - `connection` holds the connection and its operations,
//! - `retry` the reconnection policy,
//! - `model` and `trace` the mathematical state machine that specifies both,
//! - `laws` what is proved of every connection and every history.

pub mod codec;
pub mod connection;
pub mod error;
pub mod event;
pub mod laws;
pub mod model;
pub mod options;
pub mod ready_state;
pub mod retry;
pub mod trace;

pub use codec::StringCodec;
pub use connection::{
    use_event_source, use_event_source_with_options, OpenOutcome, TransportRequest,
    UseEventSourceReturn,
};
pub use error::UseEventSourceError;
pub use event::RawEvent;
pub use model::Delivery;
pub use options::{Settings, UseEventSourceOptions};
pub use ready_state::ConnectionReadyState;
pub use retry::{RetryDecision, RetryState};
