use relay_ctrl::control::Action;
use relay_ctrl::control::Config;
use relay_ctrl::control::Control;
use relay_ctrl::control::opcode_for;
use relay_ctrl::control::parse_action;
use relay_ctrl::transport::SerialTransport;

#[test]
fn recognises_the_five_action_keywords() {
    assert_eq!(parse_action("set"), Some(Action::SetRelay));
    assert_eq!(parse_action("reset"), Some(Action::ResetRelay));
    assert_eq!(parse_action("toggle"), Some(Action::ToggleRelay));
    assert_eq!(parse_action("on"), Some(Action::OnRelay));
    assert_eq!(parse_action("off"), Some(Action::OffRelay));
}

#[test]
fn rejects_anything_else() {
    assert_eq!(parse_action(""), None);
    assert_eq!(parse_action("Set"), None);
    assert_eq!(parse_action("blink"), None);
    assert_eq!(parse_action("toggle "), None);
}

#[test]
fn every_action_drives_the_toggle_opcode() {
    assert_eq!(opcode_for(Action::SetRelay), 8);
    assert_eq!(opcode_for(Action::ResetRelay), 8);
    assert_eq!(opcode_for(Action::ToggleRelay), 8);
    assert_eq!(opcode_for(Action::OnRelay), 8);
    assert_eq!(opcode_for(Action::OffRelay), 8);
}

#[test]
fn control_fails_fatally_when_the_device_is_missing() {
    let config = Config {
        relay: "/no/such/serial/device".to_string(),
        baudrate: 9600,
        relays: vec![("lamp".to_string(), 3)],
    };
    assert!(Control::new(&config).is_err());
}

#[test]
fn transport_open_reports_a_missing_device() {
    let r = SerialTransport::open("/no/such/serial/device", 9600);
    assert!(r.is_err());
}
