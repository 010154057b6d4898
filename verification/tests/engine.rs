use chat_sync::applier::{apply_inbound, InboundFrame};
use chat_sync::channel::{endpoint_url, open_outcome};
use chat_sync::conversation::Conversation;
use chat_sync::error::ChatError;
use chat_sync::send::{record_user_message, settle_send};

#[test]
fn scenario_hi_hello() {
    // open channel, send "hi" successfully, then the server streams the
    // reply "Hel" + "lo!" and closes the transport
    let mut conv = Conversation::new();
    assert_eq!(open_outcome(true), Ok(()));

    record_user_message(&mut conv, "hi".to_string());
    assert_eq!(settle_send(&mut conv, true), Ok(()));

    assert!(apply_inbound(&mut conv, InboundFrame::Text("Hel".to_string())));
    assert!(apply_inbound(&mut conv, InboundFrame::Text("lo!".to_string())));

    let log = conv.snapshot();
    assert_eq!(log.len(), 2);
    assert_eq!(log[0].text, "hi");
    assert!(log[0].user);
    assert_eq!(log[1].text, "Hello!");
    assert!(!log[1].user);
}

#[test]
fn scenario_overlapping_sends() {
    // "a" then "b" dispatched before the first settles: both user messages
    // stand in dispatch order, each settle adds one placeholder, and deltas
    // land only on whichever placeholder is currently last
    let mut conv = Conversation::new();
    record_user_message(&mut conv, "a".to_string());
    record_user_message(&mut conv, "b".to_string());
    assert_eq!(settle_send(&mut conv, true), Ok(()));
    assert_eq!(settle_send(&mut conv, true), Ok(()));

    assert!(apply_inbound(&mut conv, InboundFrame::Text("late reply".to_string())));

    let log = conv.snapshot();
    assert_eq!(log.len(), 4);
    assert_eq!((log[0].text.as_str(), log[0].user), ("a", true));
    assert_eq!((log[1].text.as_str(), log[1].user), ("b", true));
    assert_eq!((log[2].text.as_str(), log[2].user), ("", false));
    assert_eq!((log[3].text.as_str(), log[3].user), ("late reply", false));
}

#[test]
fn successful_sends_alternate() {
    let mut conv = Conversation::new();
    for text in ["one", "two", "three"] {
        record_user_message(&mut conv, text.to_string());
        assert_eq!(settle_send(&mut conv, true), Ok(()));
    }
    let log = conv.snapshot();
    assert_eq!(log.len(), 6);
    for (k, text) in ["one", "two", "three"].iter().enumerate() {
        assert_eq!(log[2 * k].text, *text);
        assert!(log[2 * k].user);
        assert_eq!(log[2 * k + 1].text, "");
        assert!(!log[2 * k + 1].user);
    }
}

#[test]
fn deltas_concatenate_in_order() {
    let mut conv = Conversation::new();
    record_user_message(&mut conv, "question".to_string());
    settle_send(&mut conv, true).unwrap();
    for delta in ["to", "ken", "s"] {
        assert!(apply_inbound(&mut conv, InboundFrame::Text(delta.to_string())));
    }
    let log = conv.snapshot();
    assert_eq!(log[1].text, "tokens");
    assert_eq!(log[0].text, "question");
}

#[test]
fn mutate_last_on_empty_is_defect() {
    let mut conv = Conversation::new();
    assert_eq!(
        conv.try_mutate_last_text("lost"),
        Err(ChatError::InvariantViolation)
    );
    assert!(conv.is_empty());
    assert_eq!(conv.len(), 0);
}

#[test]
fn failed_transmit_keeps_user_message() {
    let mut conv = Conversation::new();
    record_user_message(&mut conv, "undelivered".to_string());
    let r = settle_send(&mut conv, false);
    assert_eq!(r, Err(ChatError::Transmit));
    // the optimistic append is not rolled back, and the placeholder is
    // appended on settling either way
    let log = conv.snapshot();
    assert_eq!(log.len(), 2);
    assert_eq!(log[0].text, "undelivered");
    assert!(log[0].user);
    assert_eq!(log[1].text, "");
    assert!(!log[1].user);
}

#[test]
fn empty_delta_is_legal_noop() {
    let mut conv = Conversation::new();
    record_user_message(&mut conv, "q".to_string());
    settle_send(&mut conv, true).unwrap();
    assert!(apply_inbound(&mut conv, InboundFrame::Text(String::new())));
    let log = conv.snapshot();
    assert_eq!(log.len(), 2);
    assert_eq!(log[1].text, "");
}

#[test]
fn non_text_frame_stops_applier() {
    let mut conv = Conversation::new();
    record_user_message(&mut conv, "q".to_string());
    settle_send(&mut conv, true).unwrap();
    assert!(apply_inbound(&mut conv, InboundFrame::Text("par".to_string())));
    assert!(!apply_inbound(&mut conv, InboundFrame::NonText));
    // nothing changed on the terminating frame
    let log = conv.snapshot();
    assert_eq!(log.len(), 2);
    assert_eq!(log[1].text, "par");
}

#[test]
fn grow_last_text_in_place() {
    let mut conv = Conversation::new();
    record_user_message(&mut conv, "hel".to_string());
    conv.mutate_last_text("lo");
    assert_eq!(conv.snapshot()[0].text, "hello");
    assert!(conv.snapshot()[0].user);

    let mut ok = conv.try_mutate_last_text("!");
    assert_eq!(ok, Ok(()));
    assert_eq!(conv.snapshot()[0].text, "hello!");
    ok = conv.try_mutate_last_text("");
    assert_eq!(ok, Ok(()));
    assert_eq!(conv.snapshot()[0].text, "hello!");
}

#[test]
fn append_preserves_order() {
    let mut conv = Conversation::new();
    conv.append(chat_sync::Message {
        text: "first".to_string(),
        user: true,
    });
    conv.append(chat_sync::Message {
        text: "second".to_string(),
        user: false,
    });
    conv.append(chat_sync::Message {
        text: "third".to_string(),
        user: true,
    });
    let log = conv.snapshot();
    assert_eq!(log.len(), 3);
    assert_eq!(log[0].text, "first");
    assert_eq!(log[1].text, "second");
    assert_eq!(log[2].text, "third");
    assert_eq!(conv.len(), 3);
    assert!(!conv.is_empty());
}

#[test]
fn endpoint_from_hostname() {
    assert_eq!(endpoint_url("localhost"), "ws://localhost:3000/ws");
    assert_eq!(endpoint_url("chat.example"), "ws://chat.example:3000/ws");
    assert_eq!(endpoint_url(""), "ws://:3000/ws");
}

#[test]
fn failed_open_is_fatal_kind() {
    assert_eq!(open_outcome(false), Err(ChatError::ChannelOpen));
    assert_eq!(open_outcome(true), Ok(()));
}

#[test]
fn error_descriptions() {
    assert_eq!(
        ChatError::ChannelOpen.message(),
        "failed to establish WebSocket connection"
    );
    assert_eq!(ChatError::Transmit.message(), "WebSocket issue");
    assert_eq!(ChatError::InvariantViolation.message(), "no message to grow");
}
