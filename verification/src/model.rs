//! The connection as a mathematical state machine.
//!
//! Each operation of a connection and each notification of its transport is a
//! function from one `Model` to the next. The executable connection is specified
//! by these functions, and the laws of the library are proved about them.

use crate::error::UseEventSourceError;
use crate::event::RawEvent;
use crate::options::OptionsView;
use crate::ready_state::ConnectionReadyState;
use crate::retry::{is_terminal, RetryDecision, RetryState};
use vstd::prelude::*;

verus! {

/// What the host needs to create a transport, as contracts see it.
pub struct TransportRequestView {
    /// The address of the stream.
    pub url: Seq<char>,
    /// Whether credentials are sent along.
    pub with_credentials: bool,
    /// The channels to listen on besides the default one.
    pub named_events: Seq<Seq<char>>,
}

/// What became of a payload.
#[derive(Clone, Copy, Debug, PartialEq, Eq, Structural)]
pub enum Delivery {
    /// Nothing changed: the connection is inert or does not listen to the channel.
    Dropped,
    /// The event carried no text, so nothing went through the codec.
    Empty,
    /// The payload was decoded and is the latest value.
    Decoded,
    /// The payload could not be decoded and the reason is the latest error.
    Failed,
}

/// The whole of a connection: its configuration, what consumers observe, and
/// what the reconnection policy remembers.
pub struct Model<T, E> {
    /// The address of the stream.
    pub url: Seq<char>,
    /// The configuration.
    pub options: OptionsView,
    /// The status of the connection.
    pub ready_state: ConnectionReadyState,
    /// The value of the latest payload that could be decoded.
    pub data: Option<T>,
    /// The latest event seen on a named channel.
    pub event: Option<RawEvent>,
    /// The latest error, of the transport or of decoding.
    pub error: Option<UseEventSourceError<E>>,
    /// Whether the connection holds a transport.
    pub has_transport: bool,
    /// The state of the reconnection policy.
    pub retry: RetryState,
}

impl<T, E> Model<T, E> {
    /// The connection before anything has happened to it.
    pub open spec fn initial(url: Seq<char>, options: OptionsView) -> Self {
        Model {
            url,
            options,
            ready_state: ConnectionReadyState::Closed,
            data: None,
            event: None,
            error: None,
            has_transport: false,
            retry: RetryState::fresh(),
        }
    }

    /// Whether the connection is as it was constructed: closed, with nothing observed,
    /// no transport and nothing counted.
    pub open spec fn pristine(self) -> bool {
        self == Self::initial(self.url, self.options)
    }

    /// What holds of every connection, whatever has happened to it.
    ///
    /// An inert connection stays as it was constructed. A connection that the user has
    /// closed holds no transport. The counted attempts never exceed the limit.
    pub open spec fn wf(self) -> bool {
        &&& !self.options.interactive ==> self.pristine()
        &&& self.retry.explicitly_closed ==> !self.has_transport
        &&& self.retry.attempts <= self.options.reconnect_limit
    }

    /// Whether a close has a transport to shut down.
    pub open spec fn close_shuts_transport(self) -> bool {
        self.options.interactive && self.has_transport
    }

    /// The connection after the user's close.
    pub open spec fn after_close(self) -> Self {
        if self.close_shuts_transport() {
            Model {
                ready_state: ConnectionReadyState::Closed,
                has_transport: false,
                retry: RetryState { explicitly_closed: true, attempts: self.retry.attempts },
                ..self
            }
        } else {
            self
        }
    }

    /// Whether a connect creates a transport: not where the connection is inert, and not
    /// after the user has closed it.
    pub open spec fn connects(self) -> bool {
        self.options.interactive && !self.retry.explicitly_closed
    }

    /// Whether a connect has the host shut the held transport down before it creates the
    /// new one: whenever it creates one while one is held. A retry that comes due after
    /// the user has opened again finds such a transport.
    pub open spec fn connect_shuts_transport(self) -> bool {
        self.connects() && self.has_transport
    }

    /// What a connect asks the host to create.
    pub open spec fn request(self) -> TransportRequestView {
        TransportRequestView {
            url: self.url,
            with_credentials: self.options.with_credentials,
            named_events: self.options.named_events,
        }
    }

    /// The connection after a connect, be it part of an open or a retry that has come due.
    pub open spec fn after_connect(self) -> Self {
        if self.connects() {
            Model { ready_state: ConnectionReadyState::Connecting, has_transport: true, ..self }
        } else {
            self
        }
    }

    /// The connection after the user's open: closed first, then counted from zero, then
    /// connected.
    pub open spec fn after_open(self) -> Self {
        if self.options.interactive {
            (Model { retry: RetryState::fresh(), ..self.after_close() }).after_connect()
        } else {
            self
        }
    }

    /// The connection after its transport has reported that the stream is established.
    pub open spec fn after_transport_open(self) -> Self {
        if self.options.interactive {
            Model { ready_state: ConnectionReadyState::Open, error: None, ..self }
        } else {
            self
        }
    }

    /// What is decided when a transport in the state `transport_state` reports an error.
    pub open spec fn error_decision(self, transport_state: u16) -> RetryDecision {
        if self.options.interactive {
            self.retry.decision(
                self.options.reconnect_limit,
                self.options.reconnect_interval,
                is_terminal(transport_state),
            )
        } else {
            RetryDecision::DoNothing
        }
    }

    /// The connection after a transport in the state `transport_state` has reported the
    /// error `event`.
    pub open spec fn after_transport_error(self, event: RawEvent, transport_state: u16) -> Self {
        if self.options.interactive {
            Model {
                ready_state: ConnectionReadyState::Closed,
                error: Some(UseEventSourceError::Event(event)),
                retry: self.retry.after_error(
                    self.options.reconnect_limit,
                    is_terminal(transport_state),
                ),
                ..self
            }
        } else {
            self
        }
    }

    /// The connection after a payload has been through the codec with the outcome `decoded`.
    pub open spec fn after_decode(self, decoded: Result<T, E>) -> Self {
        if self.options.interactive {
            match decoded {
                Ok(value) => Model { data: Some(value), ..self },
                Err(reason) => Model {
                    error: Some(UseEventSourceError::Deserialize(reason)),
                    ..self
                },
            }
        } else {
            self
        }
    }

    /// What is reported of a payload that went through the codec with the outcome `decoded`.
    pub open spec fn delivery(self, decoded: Result<T, E>) -> Delivery {
        if !self.options.interactive {
            Delivery::Dropped
        } else if decoded is Ok {
            Delivery::Decoded
        } else {
            Delivery::Failed
        }
    }

    /// The connection as it leaves its constructor: opened at once where the options
    /// say so.
    pub open spec fn after_start(self) -> Self {
        if self.options.immediate {
            self.after_open()
        } else {
            self
        }
    }

    /// Whether events of the channel `name` reach the connection.
    pub open spec fn listens_to(self, name: Seq<char>) -> bool {
        self.options.interactive && self.options.named_events.contains(name)
    }

    /// The connection after `event` has arrived on a named channel, before its payload
    /// is decoded.
    pub open spec fn after_named_event(self, event: RawEvent) -> Self {
        if self.listens_to(event.event_type@) {
            Model { event: Some(event), ..self }
        } else {
            self
        }
    }
}

} // verus!
