//! The configuration of a connection. It does not change once the connection exists.

use crate::codec::StringCodec;
use std::marker::PhantomData;
use vstd::prelude::*;

verus! {

/// The configuration as contracts see it: every setting but the codec.
pub struct OptionsView {
    /// How many failed reconnect cycles are tolerated. Zero disables reconnection.
    pub reconnect_limit: u64,
    /// The fixed delay before a reconnection, in milliseconds.
    pub reconnect_interval: u64,
    /// Whether the connection is opened as soon as it is constructed.
    pub immediate: bool,
    /// The names of the channels listened to besides the default one.
    pub named_events: Seq<Seq<char>>,
    /// Whether credentials are sent along when the transport is created.
    pub with_credentials: bool,
    /// Whether the connection runs where a transport can exist at all.
    pub interactive: bool,
}

impl OptionsView {
    /// The settings of `UseEventSourceOptions::default()`.
    pub open spec fn standard() -> OptionsView {
        OptionsView {
            reconnect_limit: 3,
            reconnect_interval: 3000,
            immediate: true,
            named_events: Seq::empty(),
            with_credentials: false,
            interactive: true,
        }
    }
}

/// The text of each name in a list of channel names.
pub open spec fn names_view(names: Seq<String>) -> Seq<Seq<char>> {
    names.map_values(|name: String| name@)
}

/// Every setting but the codec, as plain values.
pub struct Settings {
    /// Retry times. Defaults to 3.
    pub reconnect_limit: u64,
    /// Retry interval in ms. Defaults to 3000.
    pub reconnect_interval: u64,
    /// If `true` the connection is opened when it is constructed.
    /// If `false` the user has to call `open`. Defaults to `true`.
    pub immediate: bool,
    /// List of named events to listen for.
    pub named_events: Vec<String>,
    /// If credentials should be included. Defaults to `false`.
    pub with_credentials: bool,
    /// If `false` the connection is inert: nothing ever opens. Defaults to `true`.
    pub interactive: bool,
}

impl View for Settings {
    type V = OptionsView;

    open spec fn view(&self) -> OptionsView {
        OptionsView {
            reconnect_limit: self.reconnect_limit,
            reconnect_interval: self.reconnect_interval,
            immediate: self.immediate,
            named_events: names_view(self.named_events@),
            with_credentials: self.with_credentials,
            interactive: self.interactive,
        }
    }
}

impl Settings {
    /// The settings that apply where none is given.
    pub fn standard() -> (settings: Settings)
        ensures
            settings@ == OptionsView::standard(),
    {
        let settings = Settings {
            reconnect_limit: 3,
            reconnect_interval: 3000,
            immediate: true,
            named_events: Vec::new(),
            with_credentials: false,
            interactive: true,
        };
        assert(names_view(settings.named_events@) =~= Seq::empty());
        settings
    }
}

/// Options for `use_event_source_with_options`.
pub struct UseEventSourceOptions<T, C: StringCodec<T>> {
    /// Decodes from the received text to a value of type `T`.
    codec: C,
    settings: Settings,
    _marker: PhantomData<T>,
}

impl<T, C: StringCodec<T>> View for UseEventSourceOptions<T, C> {
    type V = OptionsView;

    closed spec fn view(&self) -> OptionsView {
        self.settings@
    }
}

impl<T, C: StringCodec<T>> UseEventSourceOptions<T, C> {
    /// The codec that these options hold.
    pub closed spec fn spec_codec(&self) -> C {
        self.codec
    }

    /// The standard settings around a given codec.
    pub fn with_codec(codec: C) -> (options: Self)
        ensures
            options@ == OptionsView::standard(),
            options.spec_codec() == codec,
    {
        UseEventSourceOptions { codec, settings: Settings::standard(), _marker: PhantomData }
    }

    /// Replaces the codec.
    pub fn codec(self, value: C) -> (options: Self)
        ensures
            options@ == self@,
            options.spec_codec() == value,
    {
        UseEventSourceOptions { codec: value, ..self }
    }

    /// Sets how many failed reconnect cycles are tolerated. Zero disables reconnection.
    pub fn reconnect_limit(self, value: u64) -> (options: Self)
        ensures
            options@ == (OptionsView { reconnect_limit: value, ..self@ }),
            options.spec_codec() == self.spec_codec(),
    {
        let settings = Settings { reconnect_limit: value, ..self.settings };
        UseEventSourceOptions { settings, ..self }
    }

    /// Sets the delay before a reconnection, in milliseconds.
    pub fn reconnect_interval(self, value: u64) -> (options: Self)
        ensures
            options@ == (OptionsView { reconnect_interval: value, ..self@ }),
            options.spec_codec() == self.spec_codec(),
    {
        let settings = Settings { reconnect_interval: value, ..self.settings };
        UseEventSourceOptions { settings, ..self }
    }

    /// Sets whether the connection is opened as soon as it is constructed.
    pub fn immediate(self, value: bool) -> (options: Self)
        ensures
            options@ == (OptionsView { immediate: value, ..self@ }),
            options.spec_codec() == self.spec_codec(),
    {
        let settings = Settings { immediate: value, ..self.settings };
        UseEventSourceOptions { settings, ..self }
    }

    /// Sets the names of the channels listened to besides the default one.
    pub fn named_events(self, value: Vec<String>) -> (options: Self)
        ensures
            options@ == (OptionsView { named_events: names_view(value@), ..self@ }),
            options.spec_codec() == self.spec_codec(),
    {
        let settings = Settings { named_events: value, ..self.settings };
        UseEventSourceOptions { settings, ..self }
    }

    /// Sets whether credentials are sent along when the transport is created.
    pub fn with_credentials(self, value: bool) -> (options: Self)
        ensures
            options@ == (OptionsView { with_credentials: value, ..self@ }),
            options.spec_codec() == self.spec_codec(),
    {
        let settings = Settings { with_credentials: value, ..self.settings };
        UseEventSourceOptions { settings, ..self }
    }

    /// Sets whether the connection runs where a transport can exist at all.
    pub fn interactive(self, value: bool) -> (options: Self)
        ensures
            options@ == (OptionsView { interactive: value, ..self@ }),
            options.spec_codec() == self.spec_codec(),
    {
        let settings = Settings { interactive: value, ..self.settings };
        UseEventSourceOptions { settings, ..self }
    }

    /// Takes the options apart into the codec and the plain settings.
    pub fn into_parts(self) -> (parts: (C, Settings))
        ensures
            parts.0 == self.spec_codec(),
            parts.1@ == self@,
    {
        (self.codec, self.settings)
    }
}

impl<T, C: StringCodec<T> + Default> Default for UseEventSourceOptions<T, C> {
    fn default() -> (options: Self)
        ensures
            options@ == OptionsView::standard(),
            exists|codec: C| call_ensures(C::default, (), codec) && options.spec_codec() == codec,
    {
        UseEventSourceOptions::with_codec(C::default())
    }
}

} // verus!
