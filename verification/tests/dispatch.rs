use webhook_funnel::dispatch::{plan_delivery, DispatchLoop, LoopAction, LoopEvent};
use webhook_funnel::message::Message;
use webhook_funnel::parser::all_parsers;

fn delivered(action: LoopAction) -> Message {
    match action {
        LoopAction::Deliver(message) => message,
        other => panic!("expected a delivery, got {:?}", other),
    }
}

#[test]
fn unmatched_event_is_forwarded_as_its_own_text() {
    let raw = r#"{"object_kind":"unknown_kind"}"#;
    assert_eq!(plan_delivery(raw, None), vec![Message::new().add_text(raw)]);
}

#[test]
fn matched_event_is_delivered_as_parsed() {
    let parsed = vec![Message::new().add_text("a"), Message::new().add_url("b")];
    assert_eq!(plan_delivery("raw", Some(parsed.clone())), parsed);
    assert_eq!(plan_delivery("raw", Some(Vec::new())), Vec::new());
}

#[test]
fn idle_loop_pauses_after_an_empty_poll_and_polls_after_the_pause() {
    let mut state = DispatchLoop::new(all_parsers());
    assert_eq!(state.pending_len(), 0);
    assert!(matches!(state.step(LoopEvent::Started), LoopAction::Poll));
    assert!(matches!(state.step(LoopEvent::Polled(None)), LoopAction::Pause));
    assert!(matches!(state.step(LoopEvent::Resumed), LoopAction::Poll));
    assert!(matches!(state.step(LoopEvent::Polled(None)), LoopAction::Pause));
    assert_eq!(state.pending_len(), 0);
}

#[test]
fn loop_delivers_the_messages_of_an_event_in_order() {
    let raw = r#"{"object_kind":"push","user_username":"jsmith","project":{"web_url":"w"},"commits":[{"id":"a1","title":"fix bug"},{"id":"b2","title":"add test"}]}"#;
    let mut state = DispatchLoop::new(all_parsers());
    let first = delivered(state.step(LoopEvent::Polled(Some(raw.to_string()))));
    assert_eq!(first, Message::new());
    assert_eq!(state.pending_len(), 5);
    let mut rest = Vec::new();
    for _ in 0..5 {
        rest.push(delivered(state.step(LoopEvent::Delivered(true))));
    }
    assert_eq!(
        rest,
        vec![
            Message::new().add_text("jsmith -- push"),
            Message::new().add_url("w"),
            Message::new().add_text("    +  a1: fix bug"),
            Message::new().add_text("    +  b2: add test"),
            Message::new().add_text("=========="),
        ]
    );
    assert_eq!(state.pending_len(), 0);
    assert!(matches!(state.step(LoopEvent::Delivered(true)), LoopAction::Poll));
}

#[test]
fn loop_goes_on_after_a_failed_delivery() {
    let raw = r#"{"object_kind":"note","user_username":"u","project":{"web_url":"w"}}"#;
    let mut state = DispatchLoop::new(all_parsers());
    assert_eq!(delivered(state.step(LoopEvent::Polled(Some(raw.to_string())))), Message::new());
    assert_eq!(
        delivered(state.step(LoopEvent::Delivered(false))),
        Message::new().add_text("u -- note")
    );
    assert_eq!(delivered(state.step(LoopEvent::Delivered(false))), Message::new().add_url("w"));
    assert_eq!(
        delivered(state.step(LoopEvent::Delivered(false))),
        Message::new().add_text("==========")
    );
    assert!(matches!(state.step(LoopEvent::Delivered(false)), LoopAction::Poll));
    assert!(matches!(state.step(LoopEvent::Polled(None)), LoopAction::Pause));
}

#[test]
fn loop_forwards_an_unsupported_event_as_one_message() {
    let raw = r#"{"object_kind":"unknown_kind","user_username":"u"}"#;
    let mut state = DispatchLoop::new(all_parsers());
    let only = delivered(state.step(LoopEvent::Polled(Some(raw.to_string()))));
    assert_eq!(only, Message::new().add_text(raw));
    assert_eq!(state.pending_len(), 0);
    assert!(matches!(state.step(LoopEvent::Delivered(true)), LoopAction::Poll));
}

#[test]
fn loop_forwards_text_that_is_no_json() {
    let mut state = DispatchLoop::new(all_parsers());
    let only = delivered(state.step(LoopEvent::Polled(Some("hello".to_string()))));
    assert_eq!(only, Message::new().add_text("hello"));
    assert!(matches!(state.step(LoopEvent::Delivered(false)), LoopAction::Poll));
}

#[test]
fn loop_handles_events_one_after_the_other() {
    let mut state = DispatchLoop::new(all_parsers());
    assert_eq!(
        delivered(state.step(LoopEvent::Polled(Some("one".to_string())))),
        Message::new().add_text("one")
    );
    assert!(matches!(state.step(LoopEvent::Delivered(true)), LoopAction::Poll));
    assert_eq!(
        delivered(state.step(LoopEvent::Polled(Some("two".to_string())))),
        Message::new().add_text("two")
    );
    assert!(matches!(state.step(LoopEvent::Delivered(true)), LoopAction::Poll));
    assert!(matches!(state.step(LoopEvent::Polled(None)), LoopAction::Pause));
}

#[test]
fn event_that_arrives_while_draining_waits_its_turn() {
    let raw = r#"{"object_kind":"note","user_username":"u","project":{"web_url":"w"}}"#;
    let mut state = DispatchLoop::new(all_parsers());
    assert_eq!(delivered(state.step(LoopEvent::Polled(Some(raw.to_string())))), Message::new());
    assert_eq!(
        delivered(state.step(LoopEvent::Polled(Some("late".to_string())))),
        Message::new().add_text("u -- note")
    );
    assert_eq!(state.pending_len(), 3);
    assert_eq!(delivered(state.step(LoopEvent::Delivered(true))), Message::new().add_url("w"));
    assert_eq!(
        delivered(state.step(LoopEvent::Resumed)),
        Message::new().add_text("==========")
    );
    assert_eq!(
        delivered(state.step(LoopEvent::Polled(None))),
        Message::new().add_text("late")
    );
    assert!(matches!(state.step(LoopEvent::Delivered(true)), LoopAction::Poll));
}

#[test]
fn messages_leave_in_the_order_in_which_their_events_came() {
    let mut state = DispatchLoop::new(all_parsers());
    let mut handed_out = Vec::new();
    let events = vec![
        LoopEvent::Started,
        LoopEvent::Polled(Some("one".to_string())),
        LoopEvent::Polled(Some(
            r#"{"object_kind":"note","user_username":"u","project":{"web_url":"w"}}"#.to_string(),
        )),
        LoopEvent::Polled(None),
        LoopEvent::Delivered(false),
        LoopEvent::Polled(Some("two".to_string())),
        LoopEvent::Resumed,
        LoopEvent::Delivered(true),
        LoopEvent::Delivered(true),
    ];
    for event in events {
        if let LoopAction::Deliver(message) = state.step(event) {
            handed_out.push(message);
        }
    }
    assert_eq!(
        handed_out,
        vec![
            Message::new().add_text("one"),
            Message::new(),
            Message::new().add_text("u -- note"),
            Message::new().add_url("w"),
            Message::new().add_text("=========="),
            Message::new().add_text("two"),
        ]
    );
    assert_eq!(state.pending_len(), 0);
}

#[test]
fn loop_says_when_an_event_fell_back_to_its_own_text() {
    let mut state = DispatchLoop::new(all_parsers());
    assert!(!state.last_event_unmatched());
    state.step(LoopEvent::Started);
    assert!(!state.last_event_unmatched());
    state.step(LoopEvent::Polled(Some("no json".to_string())));
    assert!(state.last_event_unmatched());
    state.step(LoopEvent::Delivered(true));
    assert!(!state.last_event_unmatched());
    state.step(LoopEvent::Polled(Some(
        r#"{"object_kind":"note","user_username":"u","project":{"web_url":"w"}}"#.to_string(),
    )));
    assert!(!state.last_event_unmatched());
    state.step(LoopEvent::Polled(Some(r#"{"object_kind":"unknown_kind"}"#.to_string())));
    assert!(state.last_event_unmatched());
    state.step(LoopEvent::Polled(None));
    assert!(!state.last_event_unmatched());
}
