use ws_console::{
    plan_connect, settle, App, Attempt, Author, ChatEntry, Command, ConnectFailure,
    ConnectOutcome, ConnectPlan, ConnectionSlot, Frame, InputEvent, MessageLog, Relay, RelayStep,
    SendFailure, SkipReason, Trigger,
};

/// A stand-in for the send-half of a connection: it records what was sent
/// and can be told to reject.
#[derive(Debug, PartialEq)]
struct Wire {
    name: &'static str,
    sent: Vec<String>,
    broken: bool,
}

impl Wire {
    fn new(name: &'static str) -> Wire {
        Wire { name, sent: Vec::new(), broken: false }
    }
}

fn type_text(app: &mut App, log: &mut MessageLog, text: &str) {
    for c in text.chars() {
        app.handle_event(log, InputEvent::Char(c));
    }
}

/// Carries out a `Send` command the way a shell does.
fn send(app: &mut App, log: &mut MessageLog, slot: &mut ConnectionSlot<Wire>, command: Command) {
    let text = match command {
        Command::Send { text } => text,
        other => panic!("expected a send, got {:?}", other),
    };
    let outcome = match slot.take_for_send() {
        Ok(wire) => {
            if wire.broken {
                Err(SendFailure::SendError)
            } else {
                wire.sent.push(text);
                Ok(())
            }
        }
        Err(failure) => Err(failure),
    };
    app.finish_send(log, outcome);
}

/// Carries out a `Connect` command the way a shell does, with a handshake
/// that gives `wire`, or fails when there is none.
fn connect(
    slot: &mut ConnectionSlot<Wire>,
    command: Command,
    wire: Option<Wire>,
) -> ConnectOutcome {
    let (endpoint, trigger) = match command {
        Command::Connect { endpoint, trigger } => (endpoint, trigger),
        other => panic!("expected a connect, got {:?}", other),
    };
    let attempt = match plan_connect(&endpoint) {
        ConnectPlan::Skip(reason) => Attempt::Skipped(reason),
        ConnectPlan::Dial(_) => match wire {
            Some(wire) => Attempt::Connected(wire),
            None => Attempt::HandshakeFailed,
        },
    };
    settle(slot, trigger, attempt).outcome
}

/// Feeds the frames of one connection through a relay into the log.
fn relay_into(log: &mut MessageLog, relay: &mut Relay, frames: Vec<Frame>) {
    for frame in frames {
        if !relay.is_active() {
            return;
        }
        if let RelayStep::Forward(text) = relay.on_frame(frame) {
            log.append(ChatEntry::peer(text));
            relay.on_handoff(true);
        }
    }
}

#[test]
fn sending_with_an_empty_slot_is_not_connected() {
    let mut log = MessageLog::new();
    let mut slot: ConnectionSlot<Wire> = ConnectionSlot::new();
    let mut app = App::new(String::new());
    assert_eq!(app.run(), Command::Idle);
    type_text(&mut app, &mut log, "hello");
    let command = app.handle_event(&mut log, InputEvent::Submit);
    assert_eq!(slot.take_for_send(), Err(SendFailure::NotConnected));
    send(&mut app, &mut log, &mut slot, command);
    assert!(app.send_failed());
    assert!(log.is_empty());
    assert_eq!(app.draft(), "");
}

#[test]
fn connect_with_malformed_endpoint_fails_and_leaves_the_log_cleared() {
    let mut log = MessageLog::new();
    log.append(ChatEntry::peer("from an earlier connection".to_string()));
    let mut slot: ConnectionSlot<Wire> = ConnectionSlot::new();
    slot.install(Wire::new("earlier"));
    let mut app = App::new(String::new());
    app.handle_event(&mut log, InputEvent::ToggleFocus);
    type_text(&mut app, &mut log, "not a url");
    let command = app.handle_event(&mut log, InputEvent::Submit);
    assert_eq!(
        command,
        Command::Connect { endpoint: "not a url".to_string(), trigger: Trigger::Reset }
    );
    assert!(log.is_empty());
    let outcome = connect(&mut slot, command, Some(Wire::new("never dialled")));
    assert_eq!(outcome, ConnectOutcome::Failure(ConnectFailure::InvalidEndpoint));
    assert!(!slot.is_connected());
    assert!(log.is_empty());
    // Later sends find no connection.
    type_text(&mut app, &mut log, "anyone?");
    let command = app.handle_event(&mut log, InputEvent::Submit);
    send(&mut app, &mut log, &mut slot, command);
    assert!(app.send_failed());
    assert!(log.is_empty());
}

#[test]
fn malformed_startup_endpoint_fails_without_touching_anything() {
    let mut log = MessageLog::new();
    let mut slot: ConnectionSlot<Wire> = ConnectionSlot::new();
    let mut app = App::new("not a url".to_string());
    let command = app.run();
    assert_eq!(
        command,
        Command::Connect { endpoint: "not a url".to_string(), trigger: Trigger::Startup }
    );
    assert!(matches!(
        plan_connect(app.endpoint()),
        ConnectPlan::Skip(SkipReason::InvalidEndpoint)
    ));
    let outcome = connect(&mut slot, command, Some(Wire::new("never dialled")));
    assert_eq!(outcome, ConnectOutcome::Failure(ConnectFailure::InvalidEndpoint));
    assert!(!slot.is_connected());
    assert!(log.is_empty());
    assert!(!app.send_failed());
}

#[test]
fn echo_shows_operator_entry_then_peer_entry() {
    let mut log = MessageLog::new();
    let mut slot = ConnectionSlot::new();
    let mut app = App::new("ws://localhost:9001/echo".to_string());
    let command = app.run();
    assert!(matches!(command, Command::Connect { trigger: Trigger::Startup, .. }));
    assert_eq!(connect(&mut slot, command, Some(Wire::new("echo"))), ConnectOutcome::Success);
    let mut relay = Relay::new();

    type_text(&mut app, &mut log, "hello");
    let command = app.handle_event(&mut log, InputEvent::Submit);
    send(&mut app, &mut log, &mut slot, command);
    assert_eq!(log.snapshot(), vec![ChatEntry::operator("hello".to_string())]);
    assert!(!app.send_failed());

    // The peer echoes what it got.
    let echoed = match slot.take_for_send() {
        Ok(wire) => wire.sent.clone(),
        Err(failure) => panic!("the slot is connected: {:?}", failure),
    };
    assert_eq!(echoed, ["hello"]);
    relay_into(&mut log, &mut relay, echoed.into_iter().map(Frame::Text).collect());
    assert_eq!(
        log.snapshot(),
        vec![
            ChatEntry { author: Author::Operator, content: "hello".to_string() },
            ChatEntry { author: Author::Peer, content: "hello".to_string() },
        ]
    );
}

#[test]
fn echo_may_interleave_with_a_later_send() {
    let mut log = MessageLog::new();
    let mut slot = ConnectionSlot::new();
    let mut app = App::new("ws://localhost:9001/echo".to_string());
    settle(&mut slot, Trigger::Startup, Attempt::Connected(Wire::new("echo")));
    let mut relay = Relay::new();
    type_text(&mut app, &mut log, "one");
    let command = app.handle_event(&mut log, InputEvent::Submit);
    send(&mut app, &mut log, &mut slot, command);
    type_text(&mut app, &mut log, "two");
    let command = app.handle_event(&mut log, InputEvent::Submit);
    send(&mut app, &mut log, &mut slot, command);
    relay_into(
        &mut log,
        &mut relay,
        vec![Frame::Text("one".to_string()), Frame::Text("two".to_string())],
    );
    let snapshot = log.snapshot();
    let ours: Vec<&str> = snapshot
        .iter()
        .filter(|entry| entry.author == Author::Operator)
        .map(|entry| entry.content.as_str())
        .collect();
    let theirs: Vec<&str> = snapshot
        .iter()
        .filter(|entry| entry.author == Author::Peer)
        .map(|entry| entry.content.as_str())
        .collect();
    assert_eq!(ours, ["one", "two"]);
    assert_eq!(theirs, ["one", "two"]);
}

#[test]
fn reconnect_while_old_relay_drains_starts_from_an_empty_log() {
    let mut log = MessageLog::new();
    let mut slot = ConnectionSlot::new();
    let mut app = App::new("ws://localhost:9001/a".to_string());
    settle(&mut slot, Trigger::Startup, Attempt::Connected(Wire::new("old")));
    let mut old_relay = Relay::new();
    relay_into(&mut log, &mut old_relay, vec![Frame::Text("old 1".to_string())]);
    type_text(&mut app, &mut log, "to old");
    let command = app.handle_event(&mut log, InputEvent::Submit);
    send(&mut app, &mut log, &mut slot, command);
    assert_eq!(log.len(), 2);

    // The operator reconnects; the old relay has not ended.
    let command = app.handle_event(&mut log, InputEvent::Reconnect);
    assert!(matches!(command, Command::Connect { trigger: Trigger::Reset, .. }));
    assert!(log.is_empty());
    assert!(old_relay.is_active());
    let done = settle(&mut slot, Trigger::Reset, Attempt::Connected(Wire::new("new")));
    assert_eq!(done.outcome, ConnectOutcome::Success);
    assert_eq!(done.retired.map(|wire| wire.name), Some("old"));
    let mut new_relay = Relay::new();

    relay_into(&mut log, &mut new_relay, vec![Frame::Text("new 1".to_string())]);
    assert_eq!(log.snapshot(), vec![ChatEntry::peer("new 1".to_string())]);

    // The old relay runs on until its own stream ends; what it still
    // delivers is appended like any other entry.
    relay_into(
        &mut log,
        &mut old_relay,
        vec![Frame::Text("old 2".to_string()), Frame::Closed, Frame::Text("old 3".to_string())],
    );
    assert!(!old_relay.is_active());
    assert!(new_relay.is_active());
    relay_into(&mut log, &mut new_relay, vec![Frame::Text("new 2".to_string())]);
    assert_eq!(
        log.snapshot(),
        vec![
            ChatEntry::peer("new 1".to_string()),
            ChatEntry::peer("old 2".to_string()),
            ChatEntry::peer("new 2".to_string()),
        ]
    );

    // Sends go to the new connection only.
    type_text(&mut app, &mut log, "to new");
    let command = app.handle_event(&mut log, InputEvent::Submit);
    send(&mut app, &mut log, &mut slot, command);
    let wire = slot.clear();
    assert_eq!(wire.map(|wire| (wire.name, wire.sent)), Some(("new", vec!["to new".to_string()])));
}

#[test]
fn rejected_send_reports_a_send_error() {
    let mut log = MessageLog::new();
    let mut slot = ConnectionSlot::new();
    let mut app = App::new("ws://localhost:9001".to_string());
    let mut wire = Wire::new("broken");
    wire.broken = true;
    settle(&mut slot, Trigger::Startup, Attempt::Connected(wire));
    type_text(&mut app, &mut log, "hello");
    let command = app.handle_event(&mut log, InputEvent::Submit);
    send(&mut app, &mut log, &mut slot, command);
    assert!(app.send_failed());
    assert!(log.is_empty());
    assert!(slot.is_connected());
}

#[test]
fn failed_handshake_makes_later_sends_not_connected() {
    let mut log = MessageLog::new();
    let mut slot = ConnectionSlot::new();
    let mut app = App::new("ws://localhost:1".to_string());
    settle(&mut slot, Trigger::Startup, Attempt::Connected(Wire::new("half open")));
    let command = app.handle_event(&mut log, InputEvent::Reconnect);
    let outcome = connect(&mut slot, command, None);
    assert_eq!(outcome, ConnectOutcome::Failure(ConnectFailure::ConnectError));
    type_text(&mut app, &mut log, "hello");
    let command = app.handle_event(&mut log, InputEvent::Submit);
    assert_eq!(slot.take_for_send(), Err(SendFailure::NotConnected));
    send(&mut app, &mut log, &mut slot, command);
    assert!(app.send_failed());
    assert!(log.is_empty());
}
