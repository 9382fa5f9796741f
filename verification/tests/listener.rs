use gateway::listener::Listener;
use gateway::listener::ListenerAction;
use gateway::listener::ListenerEvent;
use gateway::listener::ListenerState;

#[test]
fn new_listener_is_binding() {
    let listener = Listener::new();
    assert_eq!(listener.current_state(), ListenerState::Binding);
    assert_eq!(listener.accepted_count(), 0);
}

#[test]
fn bound_listener_accepts() {
    let mut listener = Listener::new();
    assert_eq!(listener.step(ListenerEvent::Bound), ListenerAction::Accept);
    assert_eq!(listener.current_state(), ListenerState::Serving);
}

#[test]
fn occupied_port_stops_the_gateway_before_any_session() {
    let mut listener = Listener::new();
    assert_eq!(listener.step(ListenerEvent::BindFailed), ListenerAction::Exit);
    assert_eq!(listener.current_state(), ListenerState::Stopped);
    for event in [
        ListenerEvent::Accepted,
        ListenerEvent::AcceptFailed,
        ListenerEvent::Bound,
        ListenerEvent::BindFailed,
    ] {
        assert_eq!(listener.step(event), ListenerAction::Exit);
        assert_eq!(listener.current_state(), ListenerState::Stopped);
    }
    assert_eq!(listener.accepted_count(), 0);
}

#[test]
fn each_accepted_connection_gets_its_own_session() {
    let mut listener = Listener::new();
    listener.step(ListenerEvent::Bound);
    assert_eq!(listener.step(ListenerEvent::Accepted), ListenerAction::Spawn(0));
    assert_eq!(listener.step(ListenerEvent::Accepted), ListenerAction::Spawn(1));
    assert_eq!(listener.step(ListenerEvent::Accepted), ListenerAction::Spawn(2));
    assert_eq!(listener.accepted_count(), 3);
    assert_eq!(listener.current_state(), ListenerState::Serving);
}

#[test]
fn failed_accept_does_not_stop_the_listener() {
    let mut listener = Listener::new();
    listener.step(ListenerEvent::Bound);
    assert_eq!(listener.step(ListenerEvent::Accepted), ListenerAction::Spawn(0));
    assert_eq!(listener.step(ListenerEvent::AcceptFailed), ListenerAction::Accept);
    assert_eq!(listener.step(ListenerEvent::AcceptFailed), ListenerAction::Accept);
    assert_eq!(listener.current_state(), ListenerState::Serving);
    assert_eq!(listener.accepted_count(), 1);
    assert_eq!(listener.step(ListenerEvent::Accepted), ListenerAction::Spawn(1));
}

#[test]
fn nothing_is_accepted_before_the_endpoint_is_bound() {
    let mut listener = Listener::new();
    assert_eq!(listener.step(ListenerEvent::Accepted), ListenerAction::Bind);
    assert_eq!(listener.step(ListenerEvent::AcceptFailed), ListenerAction::Bind);
    assert_eq!(listener.current_state(), ListenerState::Binding);
    assert_eq!(listener.accepted_count(), 0);
}

#[test]
fn serving_listener_ignores_bind_reports() {
    let mut listener = Listener::new();
    listener.step(ListenerEvent::Bound);
    assert_eq!(listener.step(ListenerEvent::Bound), ListenerAction::Accept);
    assert_eq!(listener.step(ListenerEvent::BindFailed), ListenerAction::Accept);
    assert_eq!(listener.current_state(), ListenerState::Serving);
}
