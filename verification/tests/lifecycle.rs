use event_source::codec::StringCodec;
use event_source::connection::{
    use_event_source, use_event_source_with_options, OpenOutcome, TransportRequest,
    UseEventSourceReturn,
};
use event_source::error::UseEventSourceError;
use event_source::event::RawEvent;
use event_source::options::UseEventSourceOptions;
use event_source::ready_state::ConnectionReadyState;
use event_source::retry::{RetryDecision, RetryState};

#[derive(Default)]
struct Text;

impl StringCodec<String> for Text {
    type Error = ();

    fn decode(&self, text: String) -> Result<String, ()> {
        Ok(text)
    }
}

type Connection = UseEventSourceReturn<String, Text>;

const URL: &str = "https://example.org/stream";

fn options() -> UseEventSourceOptions<String, Text> {
    UseEventSourceOptions::with_codec(Text)
}

fn error_event() -> RawEvent {
    RawEvent::new("error".to_string(), None)
}

fn assert_request(request: &Option<TransportRequest>, credentials: bool, names: &[&str]) {
    match request {
        Some(request) => {
            assert_eq!(request.url, URL);
            assert_eq!(request.with_credentials, credentials);
            assert_eq!(request.named_events, names);
        }
        None => panic!("a transport was expected"),
    }
}

fn assert_untouched(connection: &Connection) {
    assert_eq!(connection.ready_state(), ConnectionReadyState::Closed);
    assert_eq!(connection.data(), &None);
    assert_eq!(connection.event(), &None);
    assert!(connection.error().is_none());
    assert!(!connection.has_event_source());
    assert_eq!(connection.retry_state(), RetryState { explicitly_closed: false, attempts: 0 });
}

#[test]
fn the_standard_connection_opens_at_once() {
    let (connection, outcome): (Connection, OpenOutcome) = use_event_source(URL, true);
    assert!(!outcome.close_previous);
    assert_request(&outcome.connect, false, &[]);
    assert_eq!(connection.ready_state(), ConnectionReadyState::Connecting);
    assert!(connection.has_event_source());
    assert_eq!(connection.url(), URL);
    assert_eq!(connection.settings().reconnect_limit, 3);
    assert_eq!(connection.settings().reconnect_interval, 3000);
    assert_eq!(connection.data(), &None);
    assert_eq!(connection.event(), &None);
    assert!(connection.error().is_none());
}

#[test]
fn without_immediate_the_connection_waits_for_open() {
    let (mut connection, outcome) = use_event_source_with_options(URL, options().immediate(false));
    assert!(!outcome.close_previous);
    assert!(outcome.connect.is_none());
    assert_untouched(&connection);

    let outcome = connection.open();
    assert!(!outcome.close_previous);
    assert_request(&outcome.connect, false, &[]);
    assert_eq!(connection.ready_state(), ConnectionReadyState::Connecting);
    assert!(connection.has_event_source());
}

#[test]
fn the_request_carries_credentials_and_channel_names() {
    let names = vec!["notice".to_string(), "update".to_string()];
    let (_, outcome) = use_event_source_with_options(
        URL,
        options().with_credentials(true).named_events(names),
    );
    assert_request(&outcome.connect, true, &["notice", "update"]);
}

#[test]
fn on_open_sets_open_and_clears_the_error() {
    let (mut connection, _) = use_event_source_with_options(URL, options());
    assert_eq!(connection.on_error(error_event(), 0), RetryDecision::DoNothing);
    assert!(connection.error().is_some());
    assert_eq!(connection.ready_state(), ConnectionReadyState::Closed);

    connection.on_open();
    assert_eq!(connection.ready_state(), ConnectionReadyState::Open);
    assert!(connection.error().is_none());
    assert!(connection.has_event_source());
}

#[test]
fn an_error_closes_and_is_recorded_even_if_the_transport_retries_itself() {
    let (mut connection, _) = use_event_source_with_options(URL, options());
    connection.on_open();
    let event = RawEvent::new("error".to_string(), Some("detail".to_string()));
    assert_eq!(connection.on_error(event.clone(), 0), RetryDecision::DoNothing);
    assert_eq!(connection.ready_state(), ConnectionReadyState::Closed);
    match connection.error() {
        Some(UseEventSourceError::Event(recorded)) => assert_eq!(recorded, &event),
        _ => panic!("the transport's error was expected"),
    }
    assert_eq!(connection.retry_state().attempts, 0);
    assert!(connection.has_event_source());
}

#[test]
fn three_terminal_errors_with_limit_three() {
    let (mut connection, outcome) =
        use_event_source_with_options(URL, options().reconnect_limit(3).reconnect_interval(100));
    let mut states: Vec<ConnectionReadyState> = vec![ConnectionReadyState::Closed];
    let mut connects: u64 = 0;
    let mut retries: u64 = 0;
    let mut failures: u64 = 0;
    let mut failed_after_error: u64 = 0;

    assert!(outcome.connect.is_some());
    connects += 1;
    states.push(connection.ready_state());

    let mut error: u64 = 1;
    while error <= 3 {
        let decision = connection.on_error(error_event(), 2);
        states.push(connection.ready_state());
        match decision {
            RetryDecision::ScheduleRetry { delay_ms } => {
                assert_eq!(delay_ms, 100);
                retries += 1;
                let retried = connection.connect();
                assert!(retried.close_previous);
                assert_request(&retried.connect, false, &[]);
                connects += 1;
                states.push(connection.ready_state());
            }
            RetryDecision::Exhausted => {
                failures += 1;
                failed_after_error = error;
            }
            RetryDecision::DoNothing => panic!("every one of these errors counts"),
        }
        error += 1;
    }

    assert_eq!(failures, 1);
    assert_eq!(failed_after_error, 3);
    assert_eq!(retries, 2);
    assert_eq!(connects, 3);
    assert_eq!(
        states,
        vec![
            ConnectionReadyState::Closed,
            ConnectionReadyState::Connecting,
            ConnectionReadyState::Closed,
            ConnectionReadyState::Connecting,
            ConnectionReadyState::Closed,
            ConnectionReadyState::Connecting,
            ConnectionReadyState::Closed,
        ]
    );
    assert_eq!(connection.ready_state(), ConnectionReadyState::Closed);
    assert_eq!(connection.retry_state(), RetryState { explicitly_closed: false, attempts: 3 });

    assert_eq!(connection.on_error(error_event(), 2), RetryDecision::DoNothing);
    assert_eq!(connection.retry_state().attempts, 3);
    assert_eq!(connection.ready_state(), ConnectionReadyState::Closed);
}

#[test]
fn a_manual_open_after_exhaustion_starts_again() {
    let (mut connection, _) = use_event_source_with_options(URL, options().reconnect_limit(1));
    assert_eq!(connection.on_error(error_event(), 2), RetryDecision::Exhausted);
    assert_eq!(connection.on_error(error_event(), 2), RetryDecision::DoNothing);

    let outcome = connection.open();
    assert!(outcome.close_previous);
    assert!(outcome.connect.is_some());
    assert_eq!(connection.retry_state(), RetryState { explicitly_closed: false, attempts: 0 });
    assert_eq!(connection.ready_state(), ConnectionReadyState::Connecting);
    assert_eq!(connection.on_error(error_event(), 2), RetryDecision::Exhausted);
}

#[test]
fn with_limit_zero_no_error_schedules_a_retry() {
    let (mut connection, _) = use_event_source_with_options(URL, options().reconnect_limit(0));
    let mut round: u64 = 0;
    while round < 5 {
        assert_eq!(connection.on_error(error_event(), 2), RetryDecision::DoNothing);
        assert_eq!(connection.retry_state().attempts, 0);
        assert_eq!(connection.ready_state(), ConnectionReadyState::Closed);
        assert!(connection.error().is_some());
        round += 1;
    }
}

#[test]
fn close_gives_up_the_transport_and_is_idempotent() {
    let (mut connection, _) = use_event_source_with_options(URL, options());
    connection.on_open();
    assert!(connection.close());
    assert_eq!(connection.ready_state(), ConnectionReadyState::Closed);
    assert!(!connection.has_event_source());
    assert!(connection.retry_state().explicitly_closed);

    assert!(!connection.close());
    assert_eq!(connection.ready_state(), ConnectionReadyState::Closed);
    assert!(!connection.has_event_source());
    assert!(connection.retry_state().explicitly_closed);
}

#[test]
fn close_without_a_transport_changes_nothing() {
    let (mut connection, _) = use_event_source_with_options(URL, options().immediate(false));
    assert!(!connection.close());
    assert_untouched(&connection);
}

#[test]
fn a_retry_that_fires_after_close_creates_no_transport() {
    let (mut connection, _) = use_event_source_with_options(URL, options());
    assert_eq!(
        connection.on_error(error_event(), 2),
        RetryDecision::ScheduleRetry { delay_ms: 3000 }
    );
    assert!(connection.close());

    let fired = connection.connect();
    assert!(!fired.close_previous);
    assert!(fired.connect.is_none());
    let fired = connection.connect();
    assert!(!fired.close_previous);
    assert!(fired.connect.is_none());
    assert!(!connection.has_event_source());
    assert_eq!(connection.ready_state(), ConnectionReadyState::Closed);
    assert_eq!(connection.retry_state(), RetryState { explicitly_closed: true, attempts: 1 });
}

#[test]
fn errors_after_close_are_recorded_but_never_retried() {
    let (mut connection, _) = use_event_source_with_options(URL, options());
    assert!(connection.close());
    assert_eq!(connection.on_error(error_event(), 2), RetryDecision::DoNothing);
    assert_eq!(connection.retry_state(), RetryState { explicitly_closed: true, attempts: 0 });
    assert!(connection.error().is_some());
}

#[test]
fn open_resets_the_policy_even_while_open() {
    let (mut connection, _) = use_event_source_with_options(URL, options());
    assert_eq!(
        connection.on_error(error_event(), 2),
        RetryDecision::ScheduleRetry { delay_ms: 3000 }
    );
    assert!(connection.connect().connect.is_some());
    connection.on_open();
    assert_eq!(connection.ready_state(), ConnectionReadyState::Open);
    assert_eq!(connection.retry_state().attempts, 1);

    let outcome = connection.open();
    assert!(outcome.close_previous);
    assert_request(&outcome.connect, false, &[]);
    assert_eq!(connection.retry_state(), RetryState { explicitly_closed: false, attempts: 0 });
    assert_eq!(connection.ready_state(), ConnectionReadyState::Connecting);
    assert!(connection.has_event_source());
}

#[test]
fn open_after_close_forgets_the_close() {
    let (mut connection, _) = use_event_source_with_options(URL, options());
    assert!(connection.close());
    assert!(connection.connect().connect.is_none());

    let outcome = connection.open();
    assert!(!outcome.close_previous);
    assert!(outcome.connect.is_some());
    assert_eq!(connection.retry_state(), RetryState { explicitly_closed: false, attempts: 0 });
    assert!(connection.has_event_source());
    assert_eq!(connection.ready_state(), ConnectionReadyState::Connecting);
}

#[test]
fn a_retry_that_fires_after_an_open_shuts_the_transport_of_that_open() {
    let (mut connection, started) =
        use_event_source_with_options(URL, options().reconnect_limit(5));
    let mut created: u64 = 0;
    let mut shut: u64 = 0;
    assert!(started.connect.is_some());
    created += 1;

    assert_eq!(
        connection.on_error(error_event(), 2),
        RetryDecision::ScheduleRetry { delay_ms: 3000 }
    );
    shut += 1;

    let opened = connection.open();
    assert!(opened.close_previous);
    assert!(opened.connect.is_some());
    created += 1;

    let retried = connection.connect();
    assert!(retried.close_previous);
    assert_request(&retried.connect, false, &[]);
    shut += 1;
    created += 1;

    assert_eq!(created - shut, 1);
    assert!(connection.has_event_source());
    assert_eq!(connection.ready_state(), ConnectionReadyState::Connecting);
    assert_eq!(connection.retry_state(), RetryState { explicitly_closed: false, attempts: 0 });
}

#[test]
fn a_first_connect_has_nothing_to_shut() {
    let (mut connection, _) = use_event_source_with_options(URL, options().immediate(false));
    let outcome = connection.connect();
    assert!(!outcome.close_previous);
    assert_request(&outcome.connect, false, &[]);
    assert!(connection.has_event_source());
    assert_eq!(connection.ready_state(), ConnectionReadyState::Connecting);

    let again = connection.connect();
    assert!(again.close_previous);
    assert!(again.connect.is_some());
    assert!(connection.has_event_source());
}

#[test]
fn an_inert_connection_ignores_open_and_close() {
    let (mut connection, outcome) = use_event_source_with_options(URL, options().interactive(false));
    assert!(!outcome.close_previous);
    assert!(outcome.connect.is_none());
    assert_untouched(&connection);

    let outcome = connection.open();
    assert!(!outcome.close_previous);
    assert!(outcome.connect.is_none());
    assert_untouched(&connection);

    assert!(!connection.close());
    assert_untouched(&connection);
}

#[test]
fn the_standard_connection_is_inert_where_nothing_is_interactive() {
    let (mut connection, outcome): (Connection, OpenOutcome) = use_event_source(URL, false);
    assert!(!outcome.close_previous);
    assert!(outcome.connect.is_none());
    assert_untouched(&connection);
    assert_eq!(connection.url(), URL);
    assert_eq!(connection.settings().reconnect_limit, 3);
    assert!(connection.settings().immediate);
    assert!(!connection.settings().interactive);

    let outcome = connection.open();
    assert!(!outcome.close_previous);
    assert!(outcome.connect.is_none());
    assert_untouched(&connection);

    assert!(!connection.close());
    assert_untouched(&connection);
}

#[test]
fn an_inert_connection_ignores_everything_else_too() {
    let (mut connection, _) = use_event_source_with_options(
        URL,
        options().interactive(false).named_events(vec!["notice".to_string()]),
    );
    let outcome = connection.connect();
    assert!(!outcome.close_previous);
    assert!(outcome.connect.is_none());
    connection.on_open();
    assert_eq!(connection.on_error(error_event(), 2), RetryDecision::DoNothing);
    connection.on_message(Some("text".to_string()));
    connection.on_named_event(RawEvent::new("notice".to_string(), Some("text".to_string())));
    connection.receive(Ok("text".to_string()));
    connection.receive(Err(()));
    assert_untouched(&connection);
}
