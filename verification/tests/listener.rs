use remote_exec::handler::HandlerState;
use remote_exec::listener::{endpoint, ListenerAction, ListenerEvent, ListenerState};

#[test]
fn the_endpoint_is_the_loopback_address_and_the_fixed_port() {
    assert_eq!(endpoint(), "127.0.0.1:7878");
}

#[test]
fn a_bound_socket_is_announced() {
    assert_eq!(
        ListenerState::Binding.step(ListenerEvent::Bound),
        (
            ListenerState::Listening,
            ListenerAction::Announce { notice: String::from("Server listening on port 7878") }
        )
    );
}

#[test]
fn a_socket_that_cannot_be_bound_ends_the_process() {
    assert_eq!(
        ListenerState::Binding.step(ListenerEvent::BindFailed(String::from("Address already in use"))),
        (
            ListenerState::Stopped,
            ListenerAction::Abort { reason: String::from("Address already in use") }
        )
    );
}

#[test]
fn every_accepted_connection_gets_a_fresh_handler() {
    let mut state = ListenerState::Listening;
    for _ in 0..100 {
        let (next, action) = state.step(ListenerEvent::Accepted);
        assert_eq!(next, ListenerState::Listening);
        assert_eq!(action, ListenerAction::Dispatch { handler: HandlerState::Reading });
        state = next;
    }
}

#[test]
fn a_failed_accept_is_reported_and_the_listener_goes_on() {
    let (state, action) =
        ListenerState::Listening.step(ListenerEvent::AcceptFailed(String::from("Too many open files")));
    assert_eq!(state, ListenerState::Listening);
    assert_eq!(
        action,
        ListenerAction::Report { notice: String::from("Connection failed: Too many open files") }
    );
    assert_eq!(
        state.step(ListenerEvent::Accepted),
        (ListenerState::Listening, ListenerAction::Dispatch { handler: HandlerState::Reading })
    );
}

#[test]
fn nothing_is_accepted_before_the_socket_is_bound() {
    assert_eq!(
        ListenerState::Binding.step(ListenerEvent::Accepted),
        (ListenerState::Binding, ListenerAction::Ignore)
    );
    assert_eq!(
        ListenerState::Binding.step(ListenerEvent::AcceptFailed(String::from("early"))),
        (ListenerState::Binding, ListenerAction::Ignore)
    );
}

#[test]
fn a_listener_that_listens_cannot_fail_to_bind() {
    assert_eq!(
        ListenerState::Listening.step(ListenerEvent::BindFailed(String::from("late"))),
        (ListenerState::Listening, ListenerAction::Ignore)
    );
    assert_eq!(
        ListenerState::Listening.step(ListenerEvent::Bound),
        (ListenerState::Listening, ListenerAction::Ignore)
    );
}

#[test]
fn a_stopped_listener_ignores_everything() {
    let events = vec![
        ListenerEvent::Bound,
        ListenerEvent::BindFailed(String::from("again")),
        ListenerEvent::Accepted,
        ListenerEvent::AcceptFailed(String::from("late")),
    ];
    for event in events {
        assert_eq!(
            ListenerState::Stopped.step(event),
            (ListenerState::Stopped, ListenerAction::Ignore)
        );
    }
}
