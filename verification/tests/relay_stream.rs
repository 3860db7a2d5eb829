use chat_relay::message::ChatError;
use chat_relay::relay::{Relay, RelayAction, RelayEvent};

/// Drive a relay through a whole event sequence the way the chat command's
/// driver does, recording every fragment that the sink acknowledged, and
/// return that record together with the call's outcome.
fn drive(events: Vec<RelayEvent>) -> (Vec<String>, Result<(), ChatError>) {
    let mut relay = Relay::new();
    let mut delivered: Vec<String> = Vec::new();
    let mut pending: Option<String> = None;
    for event in events {
        let acknowledged = matches!(event, RelayEvent::Accepted);
        assert!(relay.expects(&event), "the relay does not take this event now");
        match relay.step(event) {
            RelayAction::AwaitFragment => {
                if acknowledged {
                    delivered.push(pending.take().expect("no fragment was pending"));
                }
            }
            RelayAction::Deliver(fragment) => {
                pending = Some(fragment.message);
            }
            RelayAction::Succeed => return (delivered, Ok(())),
            RelayAction::Fail(error) => return (delivered, Err(error)),
        }
    }
    panic!("event sequence ended before the relay did");
}

fn fragment(text: &str) -> RelayEvent {
    RelayEvent::Fragment(text.to_string())
}

#[test]
fn relay_takes_only_open_outcomes_at_first() {
    let relay = Relay::new();
    assert!(relay.expects(&RelayEvent::Opened));
    assert!(relay.expects(&RelayEvent::OpenFailed("down".to_string())));
    assert!(!relay.expects(&RelayEvent::Accepted));
    assert!(!relay.expects(&RelayEvent::StreamEnd));
}

#[test]
fn chat_streams_fragments_in_order() {
    let (delivered, outcome) = drive(vec![
        RelayEvent::Opened,
        fragment("Hel"),
        RelayEvent::Accepted,
        fragment("lo!"),
        RelayEvent::Accepted,
        RelayEvent::StreamEnd,
    ]);
    assert!(outcome.is_ok());
    assert_eq!(delivered, vec!["Hel", "lo!"]);
}

#[test]
fn chat_with_no_fragments_succeeds_empty() {
    let (delivered, outcome) = drive(vec![RelayEvent::Opened, RelayEvent::StreamEnd]);
    assert!(outcome.is_ok());
    assert!(delivered.is_empty());
}

#[test]
fn open_failure_sends_nothing() {
    let (delivered, outcome) = drive(vec![RelayEvent::OpenFailed(
        "connection refused".to_string(),
    )]);
    assert!(delivered.is_empty());
    let error = outcome.unwrap_err();
    let text = error.message();
    assert_eq!(text, "Failed to start chat stream: connection refused");
    assert!(text.contains("Failed to start chat stream"));
}

#[test]
fn stream_failure_keeps_earlier_fragments() {
    let (delivered, outcome) = drive(vec![
        RelayEvent::Opened,
        fragment("par"),
        RelayEvent::Accepted,
        fragment("tial"),
        RelayEvent::Accepted,
        RelayEvent::StreamFailed("connection reset".to_string()),
    ]);
    assert_eq!(delivered, vec!["par", "tial"]);
    let error = outcome.unwrap_err();
    assert_eq!(error.message(), "Stream error: connection reset");
}

#[test]
fn stream_failure_before_any_fragment() {
    let (delivered, outcome) = drive(vec![
        RelayEvent::Opened,
        RelayEvent::StreamFailed("decode error".to_string()),
    ]);
    assert!(delivered.is_empty());
    assert!(outcome.is_err());
}

#[test]
fn sink_failure_on_second_fragment_delivers_one() {
    let (delivered, outcome) = drive(vec![
        RelayEvent::Opened,
        fragment("one"),
        RelayEvent::Accepted,
        fragment("two"),
        RelayEvent::SinkFailed("channel closed".to_string()),
    ]);
    assert_eq!(delivered, vec!["one"]);
    let error = outcome.unwrap_err();
    assert_eq!(error.message(), "Failed to send chat response: channel closed");
}
