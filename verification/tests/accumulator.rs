use gpt_chat::accumulator::{
    after_persist, frame_final, frame_update, render_final, render_update, Accumulator, Closing,
    Incoming, Outbound,
};
use gpt_chat::stream::{GenerationEvent, END_MARKER};

fn text(fragment: &str) -> Incoming {
    Incoming::Event(GenerationEvent::Text(fragment.to_string()))
}

fn end() -> Incoming {
    Incoming::Event(GenerationEvent::End(END_MARKER.to_string()))
}

#[test]
fn three_deltas_then_terminal() {
    let mut accumulator = Accumulator::new();
    assert_eq!(accumulator.text(), "");
    assert!(accumulator.is_open());

    let first = accumulator.on_item(text("Hel"));
    assert_eq!(accumulator.text(), "Hel");
    assert_eq!(first, Outbound::Update("<div><p>Hel</p>\n<div>".to_string()));

    let second = accumulator.on_item(text("lo, "));
    assert_eq!(accumulator.text(), "Hello, ");
    assert_eq!(second, Outbound::Update("<div><p>Hello,</p>\n<div>".to_string()));

    let third = accumulator.on_item(text("world!"));
    assert_eq!(accumulator.text(), "Hello, world!");
    assert_eq!(third, Outbound::Update("<div><p>Hello, world!</p>\n<div>".to_string()));

    let closing = accumulator.on_item(end());
    assert_eq!(
        closing,
        Outbound::Final {
            data: "<div id=\"sse-listener\" hx-swap-oob=\"true\"></div>\n<div hx-swap-oob=\"outerHTML:#message-container\"><p>Hello, world!</p>\n</div>".to_string(),
            persist: "Hello, world!".to_string(),
        }
    );
    assert_eq!(accumulator.text(), "");
    assert!(!accumulator.is_open());
}

#[test]
fn accumulator_is_the_concatenation_of_the_deltas() {
    let fragments = ["# T", "itle\n", "\n", "* a\n", "* b", "", " é✓"];
    let mut accumulator = Accumulator::new();
    let mut expected = String::new();
    for fragment in fragments {
        expected.push_str(fragment);
        let outbound = accumulator.on_item(text(fragment));
        assert_eq!(accumulator.text(), expected);
        assert_eq!(outbound, Outbound::Update(render_update(&expected)));
    }
    match accumulator.on_item(end()) {
        Outbound::Final { persist, .. } => assert_eq!(persist.as_bytes(), expected.as_bytes()),
        other => panic!("expected the closing update, got {:?}", other),
    }
}

#[test]
fn terminal_without_deltas_persists_the_empty_text() {
    let mut accumulator = Accumulator::new();
    let closing = accumulator.on_item(end());
    assert_eq!(
        closing,
        Outbound::Final { data: render_final(END_MARKER, ""), persist: String::new() }
    );
}

#[test]
fn failure_before_terminal_persists_nothing() {
    let mut accumulator = Accumulator::new();
    let items = vec![text("par"), text("tial"), Incoming::Failure, end(), text("late")];
    let mut outbound = Vec::new();
    for item in items {
        outbound.push(accumulator.on_item(item));
    }
    assert!(matches!(outbound[0], Outbound::Update(_)));
    assert!(matches!(outbound[1], Outbound::Update(_)));
    assert_eq!(outbound[2], Outbound::Failure);
    assert_eq!(outbound[3], Outbound::Finished);
    assert_eq!(outbound[4], Outbound::Finished);
    assert!(outbound.iter().all(|o| !matches!(o, Outbound::Final { .. })));
    assert_eq!(accumulator.text(), "partial");
    assert!(!accumulator.is_open());
}

#[test]
fn nothing_is_persisted_twice() {
    let mut accumulator = Accumulator::new();
    let items = vec![text("a"), end(), end(), text("b"), end()];
    let mut finals = 0;
    for item in items {
        if let Outbound::Final { persist, .. } = accumulator.on_item(item) {
            assert_eq!(persist, "a");
            finals += 1;
        }
    }
    assert_eq!(finals, 1);
}

#[test]
fn a_closed_channel_ends_the_stream_without_persisting() {
    let mut accumulator = Accumulator::new();
    assert!(matches!(accumulator.on_item(text("kept back")), Outbound::Update(_)));
    assert_eq!(accumulator.on_item(Incoming::Closed), Outbound::Finished);
    assert!(!accumulator.is_open());
    assert_eq!(accumulator.on_item(end()), Outbound::Finished);
}

#[test]
fn update_wraps_the_rendered_text() {
    assert_eq!(render_update("**bold**"), "<div><p><strong>bold</strong></p>\n<div>");
    assert_eq!(render_update(""), "<div><div>");
}

#[test]
fn final_joins_marker_and_swapped_container() {
    assert_eq!(
        render_final("MARK", "*x*"),
        "MARK\n<div hx-swap-oob=\"outerHTML:#message-container\"><p><em>x</em></p>\n</div>"
    );
}

#[test]
fn rendering_a_stored_text_twice_gives_the_same_html() {
    let stored = "1. one\n2. two\n\n> quote with `code` and <b>html</b>\n";
    assert_eq!(render_update(stored), render_update(stored));
    assert_eq!(render_final(END_MARKER, stored), render_final(END_MARKER, stored));

    let mut accumulator = Accumulator::new();
    accumulator.on_item(text(stored));
    match accumulator.on_item(end()) {
        Outbound::Final { data, persist } => assert_eq!(data, render_final(END_MARKER, &persist)),
        other => panic!("expected the closing update, got {:?}", other),
    }
}

#[test]
fn stored_text_ends_the_stream_with_the_closing_event() {
    assert_eq!(after_persist(true, "closing".to_string()), Closing::Event("closing".to_string()));
    assert_eq!(after_persist(true, String::new()), Closing::Event(String::new()));
}

#[test]
fn failed_write_ends_the_stream_with_an_error() {
    assert_eq!(after_persist(false, "closing".to_string()), Closing::Failure);
}

#[test]
fn frames_wrap_html_as_it_is() {
    assert_eq!(frame_update("<p>x</p>\n"), "<div><p>x</p>\n<div>");
    assert_eq!(frame_update(""), "<div><div>");
    assert_eq!(
        frame_final("M", "<p>x</p>\n"),
        "M\n<div hx-swap-oob=\"outerHTML:#message-container\"><p>x</p>\n</div>"
    );
}
