//! Exchanges against a pseudo-terminal: opening `/dev/ptmx` yields a fresh
//! terminal with nothing on the other end, so an unknown relay is reported
//! without touching the wire and a sent command runs into the read timeout.

use relay_ctrl::control::{Action, Config, Control, ControlOutcome};

fn pty_config() -> Config {
    Config {
        relay: "/dev/ptmx".to_string(),
        baudrate: 9600,
        relays: vec![("lamp".to_string(), 3)],
    }
}

#[test]
fn unknown_relay_is_reported_and_nothing_is_sent() {
    let mut control = Control::new(&pty_config()).expect("pty should open");
    let outcome = control.perform("fan", Action::OnRelay);
    assert_eq!(outcome, ControlOutcome::UnknownRelay { name: "fan".to_string() });
}

#[test]
fn silent_device_times_out_into_a_transport_failure() {
    let mut control = Control::new(&pty_config()).expect("pty should open");
    let outcome = control.perform("lamp", Action::ToggleRelay);
    match outcome {
        ControlOutcome::TransportFailure { message } => assert!(!message.is_empty()),
        other => panic!("expected a transport failure, got {:?}", other),
    }
}
