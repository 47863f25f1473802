use broadcast_chat::frame::Frame;
use broadcast_chat::hub::Hub;
use broadcast_chat::registry::Registry;
use broadcast_chat::session::{CloseReason, Phase, Reaction, SessionEvent};

#[test]
fn a_new_registry_is_empty() {
    let registry = Registry::new();
    assert_eq!(registry.len(), 0);
    assert!(!registry.contains(0));
    assert_eq!(registry.phase(0), None);
}

#[test]
fn sessions_are_numbered_in_the_order_they_come() {
    let hub = Hub::new();
    let mut registry = Registry::new();
    let (first, _rx1) = registry.register("a".to_string(), &hub).unwrap();
    let (second, _rx2) = registry.register("b".to_string(), &hub).unwrap();
    let (third, _rx3) = registry.register("a".to_string(), &hub).unwrap();
    assert_eq!((first, second, third), (0, 1, 2));
    assert_eq!(registry.len(), 3);
    assert!(registry.contains(0) && registry.contains(1) && registry.contains(2));
    assert!(!registry.contains(3));
    assert_eq!(registry.phase(1), Some(Phase::Active));
}

#[test]
fn registering_subscribes_the_session() {
    let hub = Hub::new();
    let mut registry = Registry::new();
    let (a, mut rx_a) = registry.register("10.0.0.1:1".to_string(), &hub).unwrap();
    let (_b, mut rx_b) = registry.register("10.0.0.2:2".to_string(), &hub).unwrap();
    let handled = registry.dispatch(a, &hub, SessionEvent::Inbound(Frame::Text("hello".to_string()))).unwrap();
    assert_eq!(handled.publication, Some(Ok(2)));
    assert_eq!(rx_a.try_recv().unwrap(), "10.0.0.1:1: hello");
    assert_eq!(rx_b.try_recv().unwrap(), "10.0.0.1:1: hello");
}

#[test]
fn an_event_for_an_unknown_session_changes_nothing() {
    let hub = Hub::new();
    let mut registry = Registry::new();
    let (a, _rx) = registry.register("a".to_string(), &hub).unwrap();
    assert_eq!(registry.dispatch(a + 1, &hub, SessionEvent::InboundFailed), None);
    assert_eq!(registry.len(), 1);
    assert_eq!(registry.phase(a), Some(Phase::Active));
}

#[test]
fn closing_one_session_leaves_the_others_as_they_were() {
    let hub = Hub::new();
    let mut registry = Registry::new();
    let (a, rx_a) = registry.register("10.0.0.1:1".to_string(), &hub).unwrap();
    let (b, mut rx_b) = registry.register("10.0.0.2:2".to_string(), &hub).unwrap();
    let (c, mut rx_c) = registry.register("10.0.0.3:3".to_string(), &hub).unwrap();

    let handled = registry.dispatch(a, &hub, SessionEvent::Inbound(Frame::Close)).unwrap();
    assert_eq!(handled.reaction, Reaction::Release(CloseReason::PeerClosed));
    assert_eq!(registry.phase(a), Some(Phase::Closing));
    assert_eq!(registry.phase(b), Some(Phase::Active));
    assert_eq!(registry.phase(c), Some(Phase::Active));
    drop(rx_a);
    registry.dispatch(a, &hub, SessionEvent::Released);
    assert_eq!(registry.phase(a), Some(Phase::Closed));
    assert!(registry.retire(a));
    assert_eq!(registry.len(), 2);
    assert_eq!(registry.phase(a), None);

    let handled = registry.dispatch(b, &hub, SessionEvent::Inbound(Frame::Text("hi".to_string()))).unwrap();
    assert_eq!(handled.publication, Some(Ok(2)));
    let line = rx_c.try_recv().unwrap();
    assert_eq!(line, "10.0.0.2:2: hi");
    assert_eq!(rx_b.try_recv().unwrap(), "10.0.0.2:2: hi");
    let forwarded = registry.dispatch(c, &hub, SessionEvent::Delivered(line)).unwrap();
    assert_eq!(forwarded.reaction, Reaction::Forward("10.0.0.2:2: hi".to_string()));
    assert_eq!(registry.phase(b), Some(Phase::Active));
    assert_eq!(registry.phase(c), Some(Phase::Active));
}

#[test]
fn only_a_closed_session_is_let_go() {
    let hub = Hub::new();
    let mut registry = Registry::new();
    let (a, _rx) = registry.register("a".to_string(), &hub).unwrap();
    assert!(!registry.retire(a));
    assert!(!registry.retire(a + 1));
    registry.dispatch(a, &hub, SessionEvent::SendFailed);
    assert!(!registry.retire(a));
    assert_eq!(registry.len(), 1);
    registry.dispatch(a, &hub, SessionEvent::Released);
    assert!(registry.retire(a));
    assert!(!registry.retire(a));
    assert_eq!(registry.len(), 0);
}

#[test]
fn an_identifier_is_never_given_twice() {
    let hub = Hub::new();
    let mut registry = Registry::new();
    let (a, _rx_a) = registry.register("a".to_string(), &hub).unwrap();
    registry.dispatch(a, &hub, SessionEvent::HubClosed);
    registry.dispatch(a, &hub, SessionEvent::Released);
    assert!(registry.retire(a));
    let (b, _rx_b) = registry.register("a".to_string(), &hub).unwrap();
    assert_ne!(a, b);
    assert_eq!(b, 1);
    assert_eq!(registry.phase(b), Some(Phase::Active));
}

#[test]
fn every_session_is_subscribed_to_the_hub_it_was_given() {
    let hub = Hub::new();
    let other = Hub::new();
    let mut registry = Registry::new();
    let (_a, rx_a) = registry.register("a".to_string(), &hub).unwrap();
    let (_b, rx_b) = registry.register("b".to_string(), &hub.share()).unwrap();
    let (_c, rx_c) = registry.register("c".to_string(), &other).unwrap();
    assert!(rx_a.same_channel(&rx_b));
    assert!(rx_a.same_channel(&hub.subscribe()));
    assert!(!rx_a.same_channel(&rx_c));
    assert!(rx_c.same_channel(&other.subscribe()));
}
