use kanata_observer::supervisor::{
    Directive, Endpoint, Link, LinkEvent, Supervisor, CONNECT_TIMEOUT_SECS, RETRY_DELAY_SECS,
};

fn connect(port: u16, delay_secs: u64) -> Directive {
    Directive::Connect {
        endpoint: Endpoint { host: (127, 0, 0, 1), port },
        delay_secs,
        timeout_secs: 5,
    }
}

#[test]
fn intervals_are_five_and_thirty_seconds() {
    assert_eq!(CONNECT_TIMEOUT_SECS, 5);
    assert_eq!(RETRY_DELAY_SECS, 30);
}

#[test]
fn supervisor_begins_by_connecting_at_once() {
    let (supervisor, first) = Supervisor::start(5829, "~/hook.sh".to_string());
    assert_eq!(supervisor.link(), Link::Disconnected);
    assert_eq!(first, connect(5829, 0));
}

#[test]
fn unreachable_daemon_is_retried_after_the_delay() {
    let (mut supervisor, first) = Supervisor::start(5829, "~/hook.sh".to_string());
    assert_eq!(first, connect(5829, 0));
    for _ in 0..100 {
        assert_eq!(supervisor.step(LinkEvent::ConnectFailed), Some(connect(5829, 30)));
        assert_eq!(supervisor.link(), Link::Disconnected);
    }
    assert_eq!(
        supervisor.step(LinkEvent::ConnectSucceeded),
        Some(Directive::RunSession { script_path: "~/hook.sh".to_string() })
    );
    assert_eq!(supervisor.link(), Link::Connected);
}

#[test]
fn lost_connection_is_retried_after_the_delay() {
    let (mut supervisor, _) = Supervisor::start(40000, "/opt/hook.sh".to_string());
    supervisor.step(LinkEvent::ConnectSucceeded);
    assert_eq!(supervisor.step(LinkEvent::SessionEnded), Some(connect(40000, 30)));
    assert_eq!(supervisor.link(), Link::Disconnected);
}

#[test]
fn supervisor_goes_round_for_ever() {
    let (mut supervisor, _) = Supervisor::start(1, String::new());
    for round in 0..50 {
        if round % 3 == 0 {
            assert_eq!(supervisor.step(LinkEvent::ConnectFailed), Some(connect(1, 30)));
        }
        assert_eq!(
            supervisor.step(LinkEvent::ConnectSucceeded),
            Some(Directive::RunSession { script_path: String::new() })
        );
        assert_eq!(supervisor.step(LinkEvent::SessionEnded), Some(connect(1, 30)));
    }
}

#[test]
fn events_out_of_turn_change_nothing() {
    let (mut supervisor, _) = Supervisor::start(5829, "hook".to_string());
    assert_eq!(supervisor.step(LinkEvent::SessionEnded), None);
    assert_eq!(supervisor.link(), Link::Disconnected);
    supervisor.step(LinkEvent::ConnectSucceeded);
    assert_eq!(supervisor.step(LinkEvent::ConnectFailed), None);
    assert_eq!(supervisor.step(LinkEvent::ConnectSucceeded), None);
    assert_eq!(supervisor.link(), Link::Connected);
}

#[test]
fn every_port_is_reached_on_the_loopback() {
    for port in [0u16, 1, 5829, u16::MAX] {
        let (mut supervisor, first) = Supervisor::start(port, "hook".to_string());
        assert_eq!(first, connect(port, 0));
        assert_eq!(supervisor.step(LinkEvent::ConnectFailed), Some(connect(port, 30)));
    }
}
