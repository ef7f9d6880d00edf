use neodlp_bridge::bridge::{
    classify_frame, connection_step, decide_text_frame, outbound_connection, BridgeState,
    ConnectionAction, ConnectionEvent, ConnectionPhase, FrameDecision, InboundFrame,
};
use neodlp_bridge::config::Config;
use neodlp_bridge::listener::{BindError, BindFailure, StartAction, StartPhase};

type State = BridgeState<String, String, String>;

fn fresh() -> State {
    BridgeState::new(Config { port: 53511 })
}

#[test]
fn new_state_holds_nothing_but_the_configuration() {
    let state = fresh();
    assert_eq!(state.config(), Config { port: 53511 });
    assert_eq!(state.port(), 53511);
    assert_eq!(state.active_connection(), None);
    assert!(!state.has_pending());
    assert!(!state.has_listener());
}

#[test]
fn last_handshake_wins_the_sender() {
    let mut state = fresh();
    assert_eq!(state.connection_opened(1, "one".to_string()), None);
    assert_eq!(state.connection_opened(2, "two".to_string()), Some("one".to_string()));
    assert_eq!(state.connection_opened(3, "three".to_string()), Some("two".to_string()));
    assert_eq!(state.active_connection(), Some(3));
    assert_eq!(state.sender_mut().map(|s| s.clone()), Some("three".to_string()));
}

#[test]
fn many_handshakes_leave_one_sender() {
    let mut state = fresh();
    for id in 0..100u64 {
        state.connection_opened(id, format!("sender-{}", id));
    }
    assert_eq!(state.active_connection(), Some(99));
    assert_eq!(state.connection_closed(99), Some("sender-99".to_string()));
    assert_eq!(state.active_connection(), None);
    assert!(state.sender_mut().is_none());
}

#[test]
fn closing_a_superseded_connection_keeps_the_new_sender() {
    let mut state = fresh();
    state.connection_opened(1, "old".to_string());
    state.connection_opened(2, "new".to_string());
    assert_eq!(state.connection_closed(1), None);
    assert_eq!(state.active_connection(), Some(2));
    assert_eq!(state.connection_closed(2), Some("new".to_string()));
    assert_eq!(state.active_connection(), None);
    assert_eq!(state.connection_closed(2), None);
}

#[test]
fn sender_can_be_used_in_place() {
    let mut state = fresh();
    state.connection_opened(7, String::new());
    state.sender_mut().unwrap().push_str("sent");
    assert_eq!(state.active_connection(), Some(7));
    assert_eq!(state.connection_closed(7), Some("sent".to_string()));
}

#[test]
fn one_reply_completes_one_slot() {
    let mut state = fresh();
    assert_eq!(state.complete(), None);
    assert_eq!(state.submit("slot-1".to_string()), None);
    assert!(state.has_pending());
    assert_eq!(state.complete(), Some("slot-1".to_string()));
    assert!(!state.has_pending());
    assert_eq!(state.complete(), None);
}

#[test]
fn a_second_message_replaces_the_waiting_slot() {
    let mut state = fresh();
    state.submit("first".to_string());
    assert_eq!(state.submit("second".to_string()), Some("first".to_string()));
    assert_eq!(state.complete(), Some("second".to_string()));
    assert_eq!(state.complete(), None);
}

#[test]
fn listener_handle_is_replaced_and_taken() {
    let mut state = fresh();
    assert_eq!(state.listener_taken(), None);
    assert_eq!(state.listener_installed("a".to_string()), None);
    assert!(state.has_listener());
    assert_eq!(state.listener_installed("b".to_string()), Some("a".to_string()));
    assert_eq!(state.listener_taken(), Some("b".to_string()));
    assert!(!state.has_listener());
}

#[test]
fn reconfigure_swaps_the_configuration_once_it_is_saved() {
    let mut state = fresh();
    state.connection_opened(1, "s".to_string());
    assert_eq!(state.reconfigure(Config { port: 9000 }, Ok(())), Ok(9000));
    assert_eq!(state.config(), Config { port: 9000 });
    assert_eq!(state.active_connection(), Some(1));
    assert_eq!(
        state.reconfigure(Config { port: 9001 }, Err("disk full".to_string())),
        Err("disk full".to_string())
    );
    assert_eq!(state.port(), 9000);
}

#[test]
fn text_frames_with_json_are_dispatched() {
    let frame = InboundFrame::Text(" { \"a\" : 1 } ".to_string());
    assert_eq!(
        classify_frame(&frame),
        FrameDecision::Dispatch { payload: " { \"a\" : 1 } ".to_string() }
    );
    let list = InboundFrame::Text("[1, 2,3]".to_string());
    assert_eq!(classify_frame(&list), FrameDecision::Dispatch { payload: "[1, 2,3]".to_string() });
    let number = InboundFrame::Text("1.0e2".to_string());
    assert_eq!(classify_frame(&number), FrameDecision::Dispatch { payload: "1.0e2".to_string() });
    let text = InboundFrame::Text("\"ok\"".to_string());
    assert_eq!(classify_frame(&text), FrameDecision::Dispatch { payload: "\"ok\"".to_string() });
}

#[test]
fn other_frames_are_ignored() {
    assert_eq!(classify_frame(&InboundFrame::Other), FrameDecision::Ignore);
    assert_eq!(classify_frame(&InboundFrame::Text("not json".to_string())), FrameDecision::Ignore);
    assert_eq!(classify_frame(&InboundFrame::Text(String::new())), FrameDecision::Ignore);
    assert_eq!(classify_frame(&InboundFrame::Text("{\"a\":".to_string())), FrameDecision::Ignore);
    assert_eq!(decide_text_frame("x".to_string(), None), FrameDecision::Ignore);
    assert_eq!(
        decide_text_frame(" {} ".to_string(), Some("{}".to_string())),
        FrameDecision::Dispatch { payload: " {} ".to_string() }
    );
}

#[test]
fn gui_message_needs_a_connection() {
    let mut state = fresh();
    assert_eq!(outbound_connection(&state), Err("No active WebSocket connection".to_string()));
    state.connection_opened(5, "s".to_string());
    assert_eq!(outbound_connection(&state), Ok(5));
}

fn drive_connection(events: Vec<ConnectionEvent>) -> (ConnectionPhase, Vec<ConnectionAction>) {
    let mut phase = ConnectionPhase::Handshaking;
    let mut actions = Vec::new();
    for event in events {
        let (next, action) = connection_step(phase, event);
        phase = next;
        actions.push(action);
    }
    (phase, actions)
}

fn text_frame(text: &str) -> ConnectionEvent {
    ConnectionEvent::Frame { frame: InboundFrame::Text(text.to_string()) }
}

#[test]
fn connection_relays_one_message_at_a_time() {
    let (phase, actions) = drive_connection(vec![
        ConnectionEvent::HandshakeDone,
        text_frame("{\"a\": 1}"),
        ConnectionEvent::GuiReplied { response: "ok".to_string() },
        ConnectionEvent::Frame { frame: InboundFrame::Other },
        text_frame("nonsense"),
        ConnectionEvent::StreamEnded,
    ]);
    assert_eq!(phase, ConnectionPhase::Closed);
    assert_eq!(
        actions,
        vec![
            ConnectionAction::InstallSender,
            ConnectionAction::Dispatch { payload: "{\"a\": 1}".to_string() },
            ConnectionAction::Reply { text: "ok".to_string() },
            ConnectionAction::Receive,
            ConnectionAction::Receive,
            ConnectionAction::ForgetSender,
        ]
    );
}

#[test]
fn connection_waits_for_the_gui_before_it_reads_on() {
    let (phase, actions) =
        drive_connection(vec![ConnectionEvent::HandshakeDone, text_frame("1"), text_frame("2")]);
    assert_eq!(phase, ConnectionPhase::AwaitingReply);
    assert_eq!(actions[2], ConnectionAction::Unexpected);
    let (phase, action) = connection_step(phase, ConnectionEvent::StreamEnded);
    assert_eq!((phase, action), (ConnectionPhase::AwaitingReply, ConnectionAction::Unexpected));
}

#[test]
fn dropped_slot_is_answered_by_an_error_text() {
    let (phase, action) = connection_step(
        ConnectionPhase::AwaitingReply,
        ConnectionEvent::SlotDropped { detail: "RecvError(())".to_string() },
    );
    assert_eq!(phase, ConnectionPhase::Receiving);
    assert_eq!(
        action,
        ConnectionAction::Reply { text: "Error receiving response: RecvError(())".to_string() }
    );
}

#[test]
fn failed_handshake_stores_nothing() {
    let (phase, actions) = drive_connection(vec![ConnectionEvent::HandshakeFailed]);
    assert_eq!(phase, ConnectionPhase::Closed);
    assert_eq!(actions, vec![ConnectionAction::Abandon]);
    assert_eq!(
        connection_step(ConnectionPhase::Closed, ConnectionEvent::HandshakeDone),
        (ConnectionPhase::Closed, ConnectionAction::Unexpected)
    );
}

#[test]
fn start_takes_the_old_listener_out() {
    let mut state = fresh();
    let (abort, phase, action) = state.start_begun(53511);
    assert_eq!(abort, None);
    assert_eq!(phase, StartPhase::FirstBind);
    assert_eq!(action, StartAction::Bind { after_ms: 0 });

    state.listener_installed("abort".to_string());
    let (abort, phase, action) = state.start_begun(53511);
    assert_eq!(abort, Some("abort".to_string()));
    assert_eq!(phase, StartPhase::Probing { probes: 0 });
    assert_eq!(action, StartAction::AbortThenProbe);
    assert!(!state.has_listener());

    let (abort, phase, action) = state.start_begun(0);
    assert_eq!(abort, None);
    assert_eq!(phase, StartPhase::Failed);
    assert_eq!(
        action,
        StartAction::Fail {
            after_ms: 0,
            error: BindError { port: 0, cause: BindFailure::InvalidPort },
        }
    );
    assert!(!state.has_listener());
}
