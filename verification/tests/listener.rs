use miniraw::listener::{Address, Endpoint, Listener, ListenerCommand, ListenerEvent, PORT};
use miniraw::logline::{Level, LogLine};

fn line(level: Level, text: &str) -> Option<LogLine> {
    Some(LogLine { level, text: text.to_string() })
}

#[test]
fn listener_binds_every_interface_on_the_fixed_port() {
    let r = Listener::start();
    assert_eq!(PORT, 9100);
    assert_eq!(r.listener, Listener::Binding);
    assert_eq!(
        r.command,
        ListenerCommand::Bind(Endpoint { address: Address(0, 0, 0, 0), port: 9100 })
    );
    assert_eq!(r.log, None);
}

#[test]
fn bound_listener_reports_its_start() {
    let r = Listener::Binding.step(ListenerEvent::Bound);
    assert_eq!(r.listener, Listener::Accepting);
    assert_eq!(r.command, ListenerCommand::Accept);
    assert_eq!(r.log, line(Level::Info, "Started listener on port 9100"));
}

#[test]
fn failed_bind_stops_the_listener() {
    let r = Listener::Binding.step(ListenerEvent::BindFailed);
    assert_eq!(r.listener, Listener::Stopped);
    assert_eq!(r.command, ListenerCommand::Stop);
    assert_eq!(r.log, None);
    let r = r.listener.step(ListenerEvent::Bound);
    assert_eq!(r.listener, Listener::Stopped);
    assert_eq!(r.command, ListenerCommand::Stop);
    assert_eq!(r.log, None);
}

#[test]
fn accepted_connection_is_served_and_logged() {
    let r = Listener::Accepting.step(ListenerEvent::Accepted(Some("192.0.2.7:50000".to_string())));
    assert_eq!(r.listener, Listener::Accepting);
    assert_eq!(r.command, ListenerCommand::Serve);
    assert_eq!(r.log, line(Level::Info, "Incoming connection from 192.0.2.7:50000"));
}

#[test]
fn unreadable_peer_address_does_not_stop_the_connection() {
    let r = Listener::Accepting.step(ListenerEvent::Accepted(None));
    assert_eq!(r.listener, Listener::Accepting);
    assert_eq!(r.command, ListenerCommand::Serve);
    assert_eq!(r.log, line(Level::Info, "Incoming connection from unknown"));
}

#[test]
fn failed_accept_is_logged_and_the_loop_goes_on() {
    let r = Listener::Accepting.step(ListenerEvent::AcceptFailed("connection aborted".to_string()));
    assert_eq!(r.listener, Listener::Accepting);
    assert_eq!(r.command, ListenerCommand::Accept);
    assert_eq!(r.log, line(Level::Error, "connection aborted"));
}

#[test]
fn accept_loop_outlives_any_number_of_events() {
    let mut listener = Listener::Binding.step(ListenerEvent::Bound).listener;
    for i in 0..50 {
        let event = match i % 4 {
            0 => ListenerEvent::Accepted(None),
            1 => ListenerEvent::AcceptFailed("reset".to_string()),
            2 => ListenerEvent::BindFailed,
            _ => ListenerEvent::Bound,
        };
        let r = listener.step(event);
        assert_eq!(r.listener, Listener::Accepting);
        assert!(r.command == ListenerCommand::Accept || r.command == ListenerCommand::Serve);
        listener = r.listener;
    }
}

#[test]
fn events_out_of_turn_leave_the_listener_alone() {
    let r = Listener::Binding.step(ListenerEvent::Accepted(None));
    assert_eq!(r.listener, Listener::Binding);
    assert_eq!(
        r.command,
        ListenerCommand::Bind(Endpoint { address: Address(0, 0, 0, 0), port: 9100 })
    );
    assert_eq!(r.log, None);
    let r = Listener::Accepting.step(ListenerEvent::Bound);
    assert_eq!(r.listener, Listener::Accepting);
    assert_eq!(r.command, ListenerCommand::Accept);
    assert_eq!(r.log, None);
    assert_eq!(Listener::Accepting.command(), ListenerCommand::Accept);
    assert_eq!(Listener::Stopped.command(), ListenerCommand::Stop);
}
