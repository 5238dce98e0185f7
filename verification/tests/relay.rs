use bertrand::hub::{Hub, RecvOutcome, Subscription, DEFAULT_CAPACITY};
use bertrand::session::{session_step, SessionAction, SessionEvent, SessionState};

fn drain(sub: &mut Subscription, hub: &Hub) -> Vec<String> {
    sub.receive_available(hub)
}

fn publish_all(hub: &mut Hub, values: &[&str]) {
    for v in values {
        hub.publish((*v).to_owned());
    }
}

#[test]
fn ordered_fanout_single_viewer() {
    let mut hub = Hub::with_default_capacity();
    let mut sub = hub.subscribe();
    publish_all(&mut hub, &["idle", "processing", "done"]);
    assert_eq!(drain(&mut sub, &hub), vec!["idle", "processing", "done"]);
}

#[test]
fn all_sessions_observe_each_value_once_in_order() {
    let mut hub = Hub::with_default_capacity();
    let mut subs = vec![hub.subscribe(), hub.subscribe(), hub.subscribe()];
    publish_all(&mut hub, &["a", "b"]);
    for sub in subs.iter_mut() {
        assert_eq!(drain(sub, &hub), vec!["a", "b"]);
    }
}

#[test]
fn late_viewer_sees_only_later_values() {
    let mut hub = Hub::with_default_capacity();
    hub.publish("x".to_owned());
    let mut sub = hub.subscribe();
    hub.publish("y".to_owned());
    assert_eq!(drain(&mut sub, &hub), vec!["y"]);
}

#[test]
fn publish_with_zero_subscribers_is_a_valid_no_op() {
    let mut hub = Hub::with_default_capacity();
    hub.publish("x".to_owned());
    let mut sub = hub.subscribe();
    assert_eq!(drain(&mut sub, &hub), Vec::<String>::new());
    hub.publish("y".to_owned());
    assert_eq!(drain(&mut sub, &hub), vec!["y"]);
}

#[test]
fn successive_drains_miss_nothing() {
    let mut hub = Hub::with_default_capacity();
    let mut sub = hub.subscribe();
    publish_all(&mut hub, &["a", "b"]);
    assert_eq!(drain(&mut sub, &hub), vec!["a", "b"]);
    assert_eq!(drain(&mut sub, &hub), Vec::<String>::new());
    publish_all(&mut hub, &["c", "d"]);
    assert_eq!(drain(&mut sub, &hub), vec!["c", "d"]);
}

#[test]
fn remaining_viewer_still_served_after_disconnect() {
    let mut hub = Hub::with_default_capacity();
    let dropped = hub.subscribe();
    let mut remaining = hub.subscribe();
    drop(dropped);
    hub.publish("z".to_owned());
    assert_eq!(drain(&mut remaining, &hub), vec!["z"]);
}

#[test]
fn pending_when_nothing_new() {
    let mut hub = Hub::with_default_capacity();
    let mut sub = hub.subscribe();
    assert!(matches!(sub.try_recv(&hub), RecvOutcome::Pending));
    hub.publish("a".to_owned());
    match sub.try_recv(&hub) {
        RecvOutcome::Arrived(v) => assert_eq!(v, "a"),
        _ => panic!("expected the published value"),
    }
    assert!(matches!(sub.try_recv(&hub), RecvOutcome::Pending));
}

#[test]
fn lagging_subscriber_loses_oldest_values_only() {
    let mut hub = Hub::new(2);
    let mut sub = hub.subscribe();
    publish_all(&mut hub, &["1", "2", "3", "4", "5"]);
    assert!(matches!(sub.try_recv(&hub), RecvOutcome::Lagged));
    assert_eq!(drain(&mut sub, &hub), vec!["4", "5"]);
}

#[test]
fn drain_after_lag_yields_retained_tail() {
    let mut hub = Hub::new(3);
    let mut sub = hub.subscribe();
    publish_all(&mut hub, &["a", "b", "c", "d", "e"]);
    assert_eq!(drain(&mut sub, &hub), vec!["c", "d", "e"]);
}

#[test]
fn default_capacity_is_the_server_bound() {
    let hub = Hub::with_default_capacity();
    assert_eq!(hub.capacity, DEFAULT_CAPACITY);
    assert_eq!(DEFAULT_CAPACITY, 100);
}

#[test]
fn streaming_session_delivers_arrived_value() {
    let (state, action) = session_step(
        SessionState::Streaming,
        SessionEvent::Arrived("busy".to_owned()),
    );
    assert!(matches!(state, SessionState::Streaming));
    match action {
        SessionAction::Deliver(v) => assert_eq!(v, "busy"),
        _ => panic!("expected a delivery"),
    }
}

#[test]
fn lag_does_not_close_the_session() {
    let (state, action) = session_step(SessionState::Streaming, SessionEvent::LagNoticed);
    assert!(matches!(state, SessionState::Streaming));
    assert!(matches!(action, SessionAction::Continue));
}

#[test]
fn delivery_failure_closes_only_by_stopping() {
    let (state, action) = session_step(SessionState::Streaming, SessionEvent::DeliveryFailed);
    assert!(matches!(state, SessionState::Closed));
    assert!(matches!(action, SessionAction::Stop));
}

#[test]
fn successful_delivery_keeps_streaming() {
    let (state, action) = session_step(SessionState::Streaming, SessionEvent::DeliverySucceeded);
    assert!(matches!(state, SessionState::Streaming));
    assert!(matches!(action, SessionAction::Continue));
}

#[test]
fn hub_close_and_viewer_departure_end_the_session() {
    let (state, action) = session_step(SessionState::Streaming, SessionEvent::HubClosed);
    assert!(matches!(state, SessionState::Closed));
    assert!(matches!(action, SessionAction::Stop));
    let (state, action) = session_step(SessionState::Streaming, SessionEvent::ViewerGone);
    assert!(matches!(state, SessionState::Closed));
    assert!(matches!(action, SessionAction::Stop));
}

#[test]
fn closed_session_absorbs_every_event() {
    let events = [
        SessionEvent::Arrived("late".to_owned()),
        SessionEvent::LagNoticed,
        SessionEvent::HubClosed,
        SessionEvent::DeliverySucceeded,
        SessionEvent::DeliveryFailed,
        SessionEvent::ViewerGone,
    ];
    for ev in events {
        let (state, action) = session_step(SessionState::Closed, ev);
        assert!(matches!(state, SessionState::Closed));
        assert!(matches!(action, SessionAction::Stop));
    }
}
