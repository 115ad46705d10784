//! The connection itself: the state that consumers observe, the operations `open` and
//! `close`, and the handlers for what the transport reports.
//!
//! The connection owns no transport and no timer. Each operation changes the state and
//! tells the host what to do: shut a transport down, create one, connect again after a
//! delay, or report that the attempts are used up. The host does it and calls the
//! handler for whatever the transport reports next.

use crate::codec::StringCodec;
use crate::error::UseEventSourceError;
use crate::event::RawEvent;
use crate::model::{Delivery, Model, TransportRequestView};
use crate::options::{names_view, OptionsView, Settings, UseEventSourceOptions};
use crate::ready_state::ConnectionReadyState;
use crate::retry::{transport_is_terminal, RetryDecision, RetryState};
use vstd::prelude::*;

verus! {

/// What the host needs to create a transport.
#[derive(Debug)]
pub struct TransportRequest {
    /// The address of the stream.
    pub url: String,
    /// Whether credentials are sent along.
    pub with_credentials: bool,
    /// The channels to listen on besides the default one.
    pub named_events: Vec<String>,
}

impl View for TransportRequest {
    type V = TransportRequestView;

    open spec fn view(&self) -> TransportRequestView {
        TransportRequestView {
            url: self.url@,
            with_credentials: self.with_credentials,
            named_events: names_view(self.named_events@),
        }
    }
}

/// What the host has to do after an open or a connect.
#[derive(Debug)]
pub struct OpenOutcome {
    /// Whether the transport held so far is shut down first.
    pub close_previous: bool,
    /// The transport to create then, if any.
    pub connect: Option<TransportRequest>,
}

/// A connection to a stream of server-sent events, as `use_event_source` returns it.
pub struct UseEventSourceReturn<T, C: StringCodec<T>> {
    url: String,
    codec: C,
    settings: Settings,
    ready_state: ConnectionReadyState,
    data: Option<T>,
    event: Option<RawEvent>,
    error: Option<UseEventSourceError<C::Error>>,
    has_transport: bool,
    retry: RetryState,
}

impl<T, C: StringCodec<T>> View for UseEventSourceReturn<T, C> {
    type V = Model<T, C::Error>;

    closed spec fn view(&self) -> Model<T, C::Error> {
        Model {
            url: self.url@,
            options: self.settings@,
            ready_state: self.ready_state,
            data: self.data,
            event: self.event,
            error: self.error,
            has_transport: self.has_transport,
            retry: self.retry,
        }
    }
}

/// A copy of a list of channel names.
fn copy_names(names: &Vec<String>) -> (copy: Vec<String>)
    ensures
        copy@ == names@,
{
    let mut copy: Vec<String> = Vec::new();
    let mut i: usize = 0;
    while i < names.len()
        invariant
            i <= names.len(),
            copy@ == names@.subrange(0, i as int),
        decreases names.len() - i,
    {
        copy.push(names[i].clone());
        i = i + 1;
        assert(copy@ =~= names@.subrange(0, i as int));
    }
    assert(names@.subrange(0, names.len() as int) =~= names@);
    copy
}

/// Whether `name` is among `names`.
fn holds_name(names: &Vec<String>, name: &String) -> (found: bool)
    ensures
        found == names_view(names@).contains(name@),
{
    let mut i: usize = 0;
    while i < names.len()
        invariant
            i <= names.len(),
            forall|j: int| 0 <= j < i ==> names_view(names@)[j] != name@,
        decreases names.len() - i,
    {
        if names[i] == *name {
            assert(names_view(names@)[i as int] == name@);
            return true;
        }
        i = i + 1;
    }
    false
}

impl<T, C: StringCodec<T>> UseEventSourceReturn<T, C> {
    #[verifier::type_invariant]
    spec fn valid(self) -> bool {
        self@.wf()
    }

    /// The codec that payloads go through. It is the one of the options and never changes.
    pub closed spec fn spec_codec(&self) -> C {
        self.codec
    }

    /// A closed connection to `url` that has seen nothing yet.
    fn new(url: &str, options: UseEventSourceOptions<T, C>) -> (connection: Self)
        ensures
            connection@ == Model::<T, C::Error>::initial(url@, options@),
            connection.spec_codec() == options.spec_codec(),
            connection@.wf(),
    {
        let (codec, settings) = options.into_parts();
        UseEventSourceReturn {
            url: url.to_owned(),
            codec,
            settings,
            ready_state: ConnectionReadyState::Closed,
            data: None,
            event: None,
            error: None,
            has_transport: false,
            retry: RetryState::new(),
        }
    }

    /// What a connect hands to the host.
    fn request(&self) -> (request: TransportRequest)
        ensures
            request@ == self@.request(),
    {
        TransportRequest {
            url: self.url.clone(),
            with_credentials: self.settings.with_credentials,
            named_events: copy_names(&self.settings.named_events),
        }
    }

    /// Closes the connection.
    ///
    /// Where a transport is held it is given up, the status becomes closed and every
    /// later reconnection is suppressed, a retry that is already scheduled included.
    /// Returns whether the host has to shut the transport down. Without a transport
    /// nothing changes.
    pub fn close(&mut self) -> (shut: bool)
        ensures
            final(self)@ == old(self)@.after_close(),
            shut == old(self)@.close_shuts_transport(),
            final(self).spec_codec() == old(self).spec_codec(),
            final(self)@.wf(),
    {
        proof {
            use_type_invariant(&*self);
        }
        if self.settings.interactive && self.has_transport {
            self.has_transport = false;
            self.ready_state = ConnectionReadyState::Closed;
            self.retry.explicitly_closed = true;
            true
        } else {
            false
        }
    }

    /// Connects, unless the user has closed the connection or the connection is inert.
    ///
    /// This is what a scheduled retry runs when it comes due. The outcome names the
    /// transport that the host has to create; the status is then connecting. Where a
    /// transport is still held, the host shuts it down first, so that no transport is
    /// left behind: it is the failed one, which is then shut down once more to no
    /// effect, or the one of an open that came before the retry.
    pub fn connect(&mut self) -> (outcome: OpenOutcome)
        ensures
            final(self)@ == old(self)@.after_connect(),
            outcome.connect is Some <==> old(self)@.connects(),
            outcome.connect is Some ==> outcome.connect->0@ == old(self)@.request(),
            outcome.close_previous == old(self)@.connect_shuts_transport(),
            final(self).spec_codec() == old(self).spec_codec(),
            final(self)@.wf(),
    {
        proof {
            use_type_invariant(&*self);
        }
        if !self.settings.interactive || self.retry.explicitly_closed {
            return OpenOutcome { close_previous: false, connect: None };
        }
        let close_previous = self.has_transport;
        let request = self.request();
        self.ready_state = ConnectionReadyState::Connecting;
        self.has_transport = true;
        OpenOutcome { close_previous, connect: Some(request) }
    }

    /// (Re-)opens the connection.
    ///
    /// A transport that is held is given up first. Then the attempts count from zero
    /// again, an earlier close is forgotten, and a new transport is asked for.
    /// An inert connection stays as it is.
    pub fn open(&mut self) -> (outcome: OpenOutcome)
        ensures
            final(self)@ == old(self)@.after_open(),
            outcome.close_previous == old(self)@.close_shuts_transport(),
            outcome.connect is Some <==> old(self)@.options.interactive,
            outcome.connect is Some ==> outcome.connect->0@ == old(self)@.request(),
            final(self)@.retry == RetryState::fresh(),
            final(self).spec_codec() == old(self).spec_codec(),
            final(self)@.wf(),
    {
        proof {
            use_type_invariant(&*self);
        }
        if !self.settings.interactive {
            return OpenOutcome { close_previous: false, connect: None };
        }
        let close_previous = self.close();
        self.retry = RetryState::new();
        let connected = self.connect();
        OpenOutcome { close_previous, connect: connected.connect }
    }

    /// Handles the transport's report that the stream is established.
    pub fn on_open(&mut self)
        ensures
            final(self)@ == old(self)@.after_transport_open(),
            final(self).spec_codec() == old(self).spec_codec(),
            final(self)@.wf(),
    {
        proof {
            use_type_invariant(&*self);
        }
        if self.settings.interactive {
            self.ready_state = ConnectionReadyState::Open;
            self.error = None;
        }
    }

    /// Handles an error event of a transport whose state number is `transport_state`.
    ///
    /// The status becomes closed and the event is the latest error. Whether anything is
    /// done about it is the policy's decision, which is returned; unless that is
    /// `DoNothing`, the host shuts down the transport that reported the error.
    pub fn on_error(&mut self, event: RawEvent, transport_state: u16) -> (decision: RetryDecision)
        ensures
            final(self)@ == old(self)@.after_transport_error(event, transport_state),
            decision == old(self)@.error_decision(transport_state),
            final(self).spec_codec() == old(self).spec_codec(),
            final(self)@.wf(),
    {
        proof {
            use_type_invariant(&*self);
        }
        if !self.settings.interactive {
            return RetryDecision::DoNothing;
        }
        self.ready_state = ConnectionReadyState::Closed;
        self.error = Some(UseEventSourceError::Event(event));
        let mut retry = self.retry;
        let decision = retry.on_error(
            self.settings.reconnect_limit,
            self.settings.reconnect_interval,
            transport_is_terminal(transport_state),
        );
        self.retry = retry;
        decision
    }

    /// Takes in what the codec made of a payload.
    ///
    /// A value becomes the latest value and leaves the latest error alone. A failure
    /// becomes the latest error and leaves the latest value alone. Neither touches the
    /// status or the attempts.
    pub fn receive(&mut self, decoded: Result<T, C::Error>) -> (delivery: Delivery)
        ensures
            final(self)@ == old(self)@.after_decode(decoded),
            delivery == old(self)@.delivery(decoded),
            final(self).spec_codec() == old(self).spec_codec(),
            final(self)@.wf(),
    {
        proof {
            use_type_invariant(&*self);
        }
        if !self.settings.interactive {
            return Delivery::Dropped;
        }
        match decoded {
            Ok(value) => {
                self.data = Some(value);
                Delivery::Decoded
            },
            Err(reason) => {
                self.error = Some(UseEventSourceError::Deserialize(reason));
                Delivery::Failed
            },
        }
    }

    /// Handles a message of the default channel with the payload `data`.
    ///
    /// A payload that is a text goes through the codec, as it is, and what the codec
    /// returns is taken in as `receive` does. A message without a text changes nothing,
    /// and an inert connection does not decode at all.
    pub fn on_message(&mut self, data: Option<String>) -> (delivery: Delivery)
        ensures
            !old(self)@.options.interactive ==> final(self)@ == old(self)@ && delivery
                == Delivery::Dropped,
            old(self)@.options.interactive ==> match data {
                None => final(self)@ == old(self)@ && delivery == Delivery::Empty,
                Some(text) => exists|decoded: Result<T, C::Error>|
                    {
                        &&& call_ensures(C::decode, (&old(self).spec_codec(), text), decoded)
                        &&& final(self)@ == old(self)@.after_decode(decoded)
                        &&& delivery == old(self)@.delivery(decoded)
                    },
            },
            final(self).spec_codec() == old(self).spec_codec(),
            final(self)@.wf(),
    {
        proof {
            use_type_invariant(&*self);
        }
        if !self.settings.interactive {
            return Delivery::Dropped;
        }
        match data {
            None => Delivery::Empty,
            Some(text) => {
                let decoded = self.codec.decode(text);
                let delivery = self.receive(decoded);
                assert(call_ensures(C::decode, (&old(self).spec_codec(), text), decoded)
                    && self@ == old(self)@.after_decode(decoded) && delivery == old(
                    self,
                )@.delivery(decoded));
                delivery
            },
        }
    }

    /// Handles an event that arrived on a named channel.
    ///
    /// Where the connection listens to the channel, the event becomes the latest named
    /// event and its payload is handled as that of a message. An event of any other
    /// channel changes nothing.
    pub fn on_named_event(&mut self, event: RawEvent) -> (delivery: Delivery)
        ensures
            !old(self)@.listens_to(event.event_type@) ==> final(self)@ == old(self)@ && delivery
                == Delivery::Dropped,
            old(self)@.listens_to(event.event_type@) ==> match event.data {
                None => final(self)@ == old(self)@.after_named_event(event) && delivery
                    == Delivery::Empty,
                Some(text) => exists|decoded: Result<T, C::Error>|
                    {
                        &&& call_ensures(C::decode, (&old(self).spec_codec(), text), decoded)
                        &&& final(self)@ == old(self)@.after_named_event(event).after_decode(
                            decoded,
                        )
                        &&& delivery == old(self)@.delivery(decoded)
                    },
            },
            final(self).spec_codec() == old(self).spec_codec(),
            final(self)@.wf(),
    {
        proof {
            use_type_invariant(&*self);
        }
        if !self.settings.interactive || !holds_name(&self.settings.named_events, &event.event_type) {
            return Delivery::Dropped;
        }
        let payload = match &event.data {
            None => None,
            Some(text) => Some(text.clone()),
        };
        self.event = Some(event);
        match payload {
            None => Delivery::Empty,
            Some(text) => {
                let decoded = self.codec.decode(text);
                let delivery = self.receive(decoded);
                assert(call_ensures(C::decode, (&old(self).spec_codec(), text), decoded)
                    && self@ == old(self)@.after_named_event(event).after_decode(decoded)
                    && delivery == old(self)@.delivery(decoded));
                delivery
            },
        }
    }

    /// The current status of the connection.
    pub fn ready_state(&self) -> (status: ConnectionReadyState)
        ensures
            status == self@.ready_state,
    {
        self.ready_state
    }

    /// The latest value decoded from a payload.
    pub fn data(&self) -> (data: &Option<T>)
        ensures
            *data == self@.data,
    {
        &self.data
    }

    /// The latest event that arrived on a named channel.
    pub fn event(&self) -> (event: &Option<RawEvent>)
        ensures
            *event == self@.event,
    {
        &self.event
    }

    /// The latest error.
    pub fn error(&self) -> (error: &Option<UseEventSourceError<C::Error>>)
        ensures
            *error == self@.error,
    {
        &self.error
    }

    /// Whether the connection holds a transport.
    pub fn has_event_source(&self) -> (held: bool)
        ensures
            held == self@.has_transport,
    {
        self.has_transport
    }

    /// What the reconnection policy remembers.
    pub fn retry_state(&self) -> (retry: RetryState)
        ensures
            retry == self@.retry,
    {
        self.retry
    }

    /// The codec that payloads go through.
    pub fn codec(&self) -> (codec: &C)
        ensures
            *codec == self.spec_codec(),
    {
        &self.codec
    }

    /// The settings that the connection was constructed with.
    pub fn settings(&self) -> (settings: &Settings)
        ensures
            settings@ == self@.options,
    {
        &self.settings
    }

    /// The address of the stream.
    pub fn url(&self) -> (url: &str)
        ensures
            url@ == self@.url,
    {
        self.url.as_str()
    }
}

/// Connects to the stream at `url` with the options given.
///
/// The connection starts closed with nothing observed. Where the options ask for an
/// immediate start it is opened at once, and the outcome says what the host has to do.
pub fn use_event_source_with_options<T, C: StringCodec<T>>(
    url: &str,
    options: UseEventSourceOptions<T, C>,
) -> (started: (UseEventSourceReturn<T, C>, OpenOutcome))
    ensures
        started.0@ == Model::<T, C::Error>::initial(url@, options@).after_start(),
        !started.1.close_previous,
        started.1.connect is Some <==> options@.immediate && options@.interactive,
        started.1.connect is Some ==> started.1.connect->0@ == Model::<T, C::Error>::initial(
            url@,
            options@,
        ).request(),
        started.0.spec_codec() == options.spec_codec(),
        started.0@.wf(),
{
    let mut connection = UseEventSourceReturn::new(url, options);
    if connection.settings.immediate {
        let outcome = connection.open();
        (connection, outcome)
    } else {
        (connection, OpenOutcome { close_previous: false, connect: None })
    }
}

/// Connects to the stream at `url` with the standard options, in the context given.
///
/// Where `interactive` is false the connection is inert: it stays closed with nothing
/// observed, and no transport is ever asked for.
pub fn use_event_source<T, C: StringCodec<T> + Default>(url: &str, interactive: bool) -> (started: (
    UseEventSourceReturn<T, C>,
    OpenOutcome,
))
    ensures
        started.0@ == Model::<T, C::Error>::initial(
            url@,
            OptionsView { interactive, ..OptionsView::standard() },
        ).after_start(),
        !started.1.close_previous,
        started.1.connect is Some <==> interactive,
        started.1.connect is Some ==> started.1.connect->0@ == Model::<T, C::Error>::initial(
            url@,
            OptionsView { interactive, ..OptionsView::standard() },
        ).request(),
        exists|codec: C| call_ensures(C::default, (), codec) && started.0.spec_codec() == codec,
        started.0@.wf(),
{
    let options = UseEventSourceOptions::default().interactive(interactive);
    let started = use_event_source_with_options(url, options);
    assert(call_ensures(C::default, (), options.spec_codec()) && started.0.spec_codec()
        == options.spec_codec());
    started
}

} // verus!
