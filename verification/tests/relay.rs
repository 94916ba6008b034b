use gpt_chat::relay::{Producer, Relay, Signal, UpstreamError, UpstreamEvent};
use gpt_chat::stream::{Payload, END_MARKER};

fn message(data: &str) -> UpstreamEvent {
    UpstreamEvent::Message(data.to_string())
}

fn delta(content: &str) -> UpstreamEvent {
    message(&format!("{{\"choices\":[{{\"delta\":{{\"content\":\"{}\"}}}}]}}", content))
}

#[test]
fn deltas_are_relayed_until_the_sentinel() {
    let mut producer = Producer::new();
    assert!(producer.is_reading());
    assert_eq!(producer.on_event(UpstreamEvent::Open), Relay::Skip);
    assert!(producer.is_reading());
    assert_eq!(producer.on_event(delta("Hel")), Relay::Delta("Hel".to_string()));
    producer.on_send(true);
    assert!(producer.is_reading());
    assert_eq!(producer.on_event(delta("lo")), Relay::Delta("lo".to_string()));
    producer.on_send(true);
    assert_eq!(producer.on_event(message("[DONE]")), Relay::Terminal(END_MARKER.to_string()));
    assert!(!producer.is_reading());
}

#[test]
fn terminal_event_carries_the_listener_swap() {
    let mut producer = Producer::new();
    assert_eq!(
        producer.on_event(message("[DONE]\n")),
        Relay::Terminal("<div id=\"sse-listener\" hx-swap-oob=\"true\"></div>".to_string())
    );
}

#[test]
fn refused_delta_ends_the_reading() {
    let mut producer = Producer::new();
    assert_eq!(producer.on_event(delta("a")), Relay::Delta("a".to_string()));
    producer.on_send(true);
    assert_eq!(producer.on_event(delta("b")), Relay::Delta("b".to_string()));
    producer.on_send(false);
    assert!(!producer.is_reading());
    assert_eq!(producer.on_event(delta("c")), Relay::Skip);
    assert_eq!(producer.on_event(message("[DONE]")), Relay::Skip);
    assert_eq!(producer.on_event(UpstreamEvent::Failure), Relay::Skip);
    producer.on_send(true);
    assert!(!producer.is_reading());
}

#[test]
fn chunk_without_text_is_skipped() {
    let mut producer = Producer::new();
    assert_eq!(
        producer.on_event(message("{\"choices\":[{\"delta\":{\"role\":\"assistant\"}}]}")),
        Relay::Skip
    );
    assert!(producer.is_reading());
}

#[test]
fn transport_failure_is_passed_on_and_ends_the_reading() {
    let mut producer = Producer::new();
    assert_eq!(producer.on_event(delta("a")), Relay::Delta("a".to_string()));
    producer.on_send(true);
    assert_eq!(
        producer.on_event(UpstreamEvent::Failure),
        Relay::Failure(UpstreamError::Transport)
    );
    assert!(!producer.is_reading());
    assert_eq!(producer.on_event(delta("b")), Relay::Skip);
}

#[test]
fn malformed_payload_is_passed_on_as_a_decode_error() {
    let mut producer = Producer::new();
    assert_eq!(producer.on_event(message("not json")), Relay::Failure(UpstreamError::Decode));
    assert!(!producer.is_reading());
}

#[test]
fn nothing_follows_a_decode_error() {
    let mut producer = Producer::new();
    let mut sent = Vec::new();
    for event in [delta("a"), message("not json"), delta("b"), message("[DONE]")] {
        if !producer.is_reading() {
            break;
        }
        match producer.on_event(event) {
            Relay::Delta(_) => {
                producer.on_send(true);
                sent.push("text");
            }
            Relay::Terminal(_) => sent.push("end"),
            Relay::Failure(UpstreamError::Decode) => sent.push("decode error"),
            Relay::Failure(UpstreamError::Transport) => sent.push("transport error"),
            Relay::Skip => {}
        }
    }
    assert_eq!(sent, vec!["text", "decode error"]);
    assert_eq!(producer.on_event(delta("b")), Relay::Skip);
    assert_eq!(producer.on_event(message("[DONE]")), Relay::Skip);
}

#[test]
fn upstream_errors_say_what_failed() {
    assert_eq!(UpstreamError::Transport.message(), "the connection to the provider failed");
    assert_eq!(UpstreamError::Decode.message(), "the provider sent a payload that is not JSON");
}

#[test]
fn classified_signals_are_relayed_alike() {
    let mut producer = Producer::new();
    assert_eq!(producer.relay(Signal::Open), Relay::Skip);
    assert_eq!(producer.relay(Signal::Payload(Payload::Empty)), Relay::Skip);
    assert_eq!(
        producer.relay(Signal::Payload(Payload::Delta("x".to_string()))),
        Relay::Delta("x".to_string())
    );
    assert!(producer.is_reading());
    assert_eq!(
        producer.relay(Signal::Payload(Payload::Terminal)),
        Relay::Terminal(END_MARKER.to_string())
    );
    assert!(!producer.is_reading());
    assert_eq!(producer.relay(Signal::Payload(Payload::Delta("y".to_string()))), Relay::Skip);

    let mut failing = Producer::new();
    assert_eq!(failing.relay(Signal::Failure), Relay::Failure(UpstreamError::Transport));
    assert!(!failing.is_reading());

    let mut choking = Producer::new();
    assert_eq!(
        choking.relay(Signal::Payload(Payload::Malformed)),
        Relay::Failure(UpstreamError::Decode)
    );
    assert!(!choking.is_reading());
}
