use broadcast_chat::frame::Frame;
use broadcast_chat::hub::Hub;
use broadcast_chat::message::BroadcastMessage;
use broadcast_chat::session::{CloseReason, Phase, Reaction, Session, SessionEvent};

fn active(origin: &str) -> Session {
    Session::open(origin.to_string(), &Hub::new()).0
}

fn closing(origin: &str) -> Session {
    let mut session = active(origin);
    session.react(SessionEvent::InboundFailed);
    session
}

fn closed(origin: &str) -> Session {
    let mut session = closing(origin);
    session.react(SessionEvent::Released);
    session
}

fn every_event() -> Vec<SessionEvent> {
    vec![
        SessionEvent::Inbound(Frame::Text("hi".to_string())),
        SessionEvent::Inbound(Frame::Text(String::new())),
        SessionEvent::Inbound(Frame::Binary),
        SessionEvent::Inbound(Frame::Control),
        SessionEvent::Inbound(Frame::Close),
        SessionEvent::InboundFailed,
        SessionEvent::InboundEnded,
        SessionEvent::Delivered("a: hi".to_string()),
        SessionEvent::Missed(3),
        SessionEvent::HubClosed,
        SessionEvent::SendFailed,
        SessionEvent::Released,
    ]
}

#[test]
fn a_session_starts_active_and_listening() {
    let session = active("10.1.1.1:7");
    assert_eq!(session.origin(), "10.1.1.1:7");
    assert_eq!(session.phase(), Phase::Active);
    assert!(session.expects_frames());
}

#[test]
fn a_text_is_published_under_the_session_s_origin() {
    let mut session = active("10.1.1.1:7");
    let reaction = session.react(SessionEvent::Inbound(Frame::Text("hi there".to_string())));
    let expected = BroadcastMessage::new("10.1.1.1:7".to_string(), "hi there".to_string()).unwrap();
    assert_eq!(reaction, Reaction::Publish(expected));
    assert_eq!(session.phase(), Phase::Active);
    assert!(session.expects_frames());
}

#[test]
fn white_space_is_text_too() {
    let mut session = active("p");
    let reaction = session.react(SessionEvent::Inbound(Frame::Text(" ".to_string())));
    assert_eq!(reaction, Reaction::Publish(BroadcastMessage::new("p".to_string(), " ".to_string()).unwrap()));
}

#[test]
fn an_empty_text_is_ignored_in_every_phase() {
    for mut session in [active("p"), closing("p"), closed("p")] {
        let before = session.phase();
        assert_eq!(session.react(SessionEvent::Inbound(Frame::Text(String::new()))), Reaction::Idle);
        assert_eq!(session.phase(), before);
    }
}

#[test]
fn binary_and_control_frames_are_ignored() {
    let mut session = active("p");
    assert_eq!(session.react(SessionEvent::Inbound(Frame::Binary)), Reaction::Idle);
    assert_eq!(session.react(SessionEvent::Inbound(Frame::Control)), Reaction::Idle);
    assert_eq!(session.phase(), Phase::Active);
    assert!(session.expects_frames());
}

#[test]
fn a_delivered_line_is_forwarded_as_it_is() {
    let mut session = active("10.1.1.1:7");
    let own = session.react(SessionEvent::Delivered("10.1.1.1:7: mine".to_string()));
    assert_eq!(own, Reaction::Forward("10.1.1.1:7: mine".to_string()));
    let other = session.react(SessionEvent::Delivered("10.9.9.9:1: yours".to_string()));
    assert_eq!(other, Reaction::Forward("10.9.9.9:1: yours".to_string()));
    let empty = session.react(SessionEvent::Delivered(String::new()));
    assert_eq!(empty, Reaction::Forward(String::new()));
    assert_eq!(session.phase(), Phase::Active);
}

#[test]
fn missed_lines_are_reported_and_change_nothing() {
    let mut session = active("p");
    assert_eq!(session.react(SessionEvent::Missed(5)), Reaction::ReportMissed(5));
    assert_eq!(session.react(SessionEvent::Missed(u64::MAX)), Reaction::ReportMissed(u64::MAX));
    assert_eq!(session.phase(), Phase::Active);
    assert!(session.expects_frames());
}

#[test]
fn each_reason_to_close_is_told_apart() {
    let cases = [
        (SessionEvent::Inbound(Frame::Close), CloseReason::PeerClosed),
        (SessionEvent::InboundFailed, CloseReason::ReceiveFailed),
        (SessionEvent::SendFailed, CloseReason::SendFailed),
        (SessionEvent::HubClosed, CloseReason::HubClosed),
    ];
    for (event, reason) in cases {
        let mut session = active("p");
        assert_eq!(session.react(event), Reaction::Release(reason));
        assert_eq!(session.phase(), Phase::Closing);
        assert!(!session.expects_frames());
    }
}

#[test]
fn the_end_of_the_peer_s_frames_keeps_the_session_subscribed() {
    let mut session = active("p");
    assert_eq!(session.react(SessionEvent::InboundEnded), Reaction::Idle);
    assert_eq!(session.phase(), Phase::Active);
    assert!(!session.expects_frames());
    assert_eq!(session.react(SessionEvent::Delivered("a: b".to_string())), Reaction::Forward("a: b".to_string()));
    assert_eq!(session.react(SessionEvent::HubClosed), Reaction::Release(CloseReason::HubClosed));
    assert_eq!(session.phase(), Phase::Closing);
}

#[test]
fn a_release_means_nothing_to_an_active_session() {
    let mut session = active("p");
    assert_eq!(session.react(SessionEvent::Released), Reaction::Idle);
    assert_eq!(session.phase(), Phase::Active);
}

#[test]
fn a_closing_session_waits_for_the_release_only() {
    for event in every_event() {
        let mut session = closing("p");
        let released = event == SessionEvent::Released;
        assert_eq!(session.react(event), Reaction::Idle);
        assert_eq!(session.phase(), if released { Phase::Closed } else { Phase::Closing });
        assert!(!session.expects_frames());
    }
}

#[test]
fn a_closed_session_stays_closed() {
    for event in every_event() {
        let mut session = closed("p");
        assert_eq!(session.react(event), Reaction::Idle);
        assert_eq!(session.phase(), Phase::Closed);
        assert!(!session.expects_frames());
    }
}

#[test]
fn handling_decides_as_reacting_does() {
    let hub = Hub::new();
    let _listener = hub.subscribe();
    for event in every_event() {
        let mut reacting = active("p");
        let mut handling = active("p");
        let reaction = reacting.react(event.clone());
        let handled = handling.handle(&hub, event);
        assert_eq!(handled.publication.is_some(), matches!(reaction, Reaction::Publish(_)));
        assert_eq!(handled.reaction, reaction);
        assert_eq!(handling.phase(), reacting.phase());
        assert_eq!(handling.expects_frames(), reacting.expects_frames());
    }
}

#[test]
fn a_session_is_subscribed_to_the_hub_it_was_opened_on() {
    let hub = Hub::new();
    let other = Hub::new();
    let (_a, rx_a) = Session::open("a".to_string(), &hub);
    let (_b, rx_b) = Session::open("b".to_string(), &hub.share());
    let (_c, rx_c) = Session::open("c".to_string(), &other);
    assert!(rx_a.same_channel(&rx_b));
    assert!(rx_a.same_channel(&hub.subscribe()));
    assert!(!rx_a.same_channel(&rx_c));
}
