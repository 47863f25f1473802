use broadcast_chat::client::{Client, ClientAction, ClientEvent, ClientPhase, LeaveReason};
use broadcast_chat::frame::Frame;

fn line(text: &str) -> ClientEvent {
    ClientEvent::Line(text.to_string())
}

fn every_event() -> Vec<ClientEvent> {
    vec![
        line("hello"),
        line("exit"),
        ClientEvent::InputEnded,
        ClientEvent::Inbound(Frame::Text("a: b".to_string())),
        ClientEvent::Inbound(Frame::Binary),
        ClientEvent::Inbound(Frame::Control),
        ClientEvent::Inbound(Frame::Close),
        ClientEvent::InboundFailed,
        ClientEvent::InboundEnded,
        ClientEvent::SendFailed,
    ]
}

#[test]
fn a_client_starts_with_both_sources_open() {
    let client = Client::new();
    assert_eq!(client.phase(), ClientPhase::Active);
    assert!(client.expects_input());
    assert!(client.expects_frames());
}

#[test]
fn a_line_is_sent_as_it_was_typed() {
    let mut client = Client::new();
    assert_eq!(client.react(line("hello")), ClientAction::Send("hello".to_string()));
    assert_eq!(client.react(line("  padded  ")), ClientAction::Send("  padded  ".to_string()));
    assert_eq!(client.react(line("")), ClientAction::Send(String::new()));
    assert_eq!(client.react(line("exit now")), ClientAction::Send("exit now".to_string()));
    assert_eq!(client.phase(), ClientPhase::Active);
}

#[test]
fn exit_and_quit_end_the_client_with_a_close_frame() {
    for word in ["exit", "quit", "EXIT", "Quit", "  eXiT\t", "quit\r\n"] {
        let mut client = Client::new();
        assert_eq!(client.react(line(word)), ClientAction::Farewell);
        assert_eq!(client.phase(), ClientPhase::Closed);
        assert!(!client.expects_input());
        assert!(!client.expects_frames());
    }
}

#[test]
fn a_text_from_the_service_is_shown() {
    let mut client = Client::new();
    let shown = client.react(ClientEvent::Inbound(Frame::Text("10.0.0.1:1: hi".to_string())));
    assert_eq!(shown, ClientAction::Show("10.0.0.1:1: hi".to_string()));
    let empty = client.react(ClientEvent::Inbound(Frame::Text(String::new())));
    assert_eq!(empty, ClientAction::Show(String::new()));
    assert_eq!(client.react(ClientEvent::Inbound(Frame::Binary)), ClientAction::Idle);
    assert_eq!(client.react(ClientEvent::Inbound(Frame::Control)), ClientAction::Idle);
    assert_eq!(client.phase(), ClientPhase::Active);
}

#[test]
fn each_reason_to_leave_is_told_apart() {
    let cases = [
        (ClientEvent::Inbound(Frame::Close), LeaveReason::RemoteClosed),
        (ClientEvent::InboundFailed, LeaveReason::ReceiveFailed),
        (ClientEvent::SendFailed, LeaveReason::SendFailed),
    ];
    for (event, reason) in cases {
        let mut client = Client::new();
        assert_eq!(client.react(event), ClientAction::Leave(reason));
        assert_eq!(client.phase(), ClientPhase::Closed);
    }
}

#[test]
fn a_source_that_ends_is_no_longer_waited_for() {
    let mut client = Client::new();
    assert_eq!(client.react(ClientEvent::InputEnded), ClientAction::Idle);
    assert_eq!(client.phase(), ClientPhase::Active);
    assert!(!client.expects_input());
    assert!(client.expects_frames());
    let shown = client.react(ClientEvent::Inbound(Frame::Text("x".to_string())));
    assert_eq!(shown, ClientAction::Show("x".to_string()));

    let mut client = Client::new();
    assert_eq!(client.react(ClientEvent::InboundEnded), ClientAction::Idle);
    assert!(client.expects_input());
    assert!(!client.expects_frames());
    assert_eq!(client.react(line("x")), ClientAction::Send("x".to_string()));
}

#[test]
fn the_client_leaves_when_both_sources_have_ended() {
    let mut client = Client::new();
    client.react(ClientEvent::InputEnded);
    assert_eq!(client.react(ClientEvent::InboundEnded), ClientAction::Leave(LeaveReason::Exhausted));
    assert_eq!(client.phase(), ClientPhase::Closed);

    let mut client = Client::new();
    client.react(ClientEvent::InboundEnded);
    assert_eq!(client.react(ClientEvent::InputEnded), ClientAction::Leave(LeaveReason::Exhausted));
    assert_eq!(client.phase(), ClientPhase::Closed);
}

#[test]
fn a_closed_client_does_nothing_more() {
    for event in every_event() {
        let mut client = Client::new();
        client.react(line("quit"));
        assert_eq!(client.react(event), ClientAction::Idle);
        assert_eq!(client.phase(), ClientPhase::Closed);
    }
}
