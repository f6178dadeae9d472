use relay_ctrl::registry::RelayRegistry;

fn pairs(list: &[(&str, u8)]) -> Vec<(String, u8)> {
    list.iter().map(|(n, p)| (n.to_string(), *p)).collect()
}

#[test]
fn resolves_every_configured_name() {
    let reg = RelayRegistry::from_pairs(&pairs(&[("lamp", 3), ("fan", 7), ("pump", 0)]));
    assert_eq!(reg.resolve("lamp"), Some(3));
    assert_eq!(reg.resolve("fan"), Some(7));
    assert_eq!(reg.resolve("pump"), Some(0));
}

#[test]
fn absent_names_resolve_to_none() {
    let reg = RelayRegistry::from_pairs(&pairs(&[("lamp", 3)]));
    assert_eq!(reg.resolve("fan"), None);
    assert_eq!(reg.resolve(""), None);
    assert_eq!(reg.resolve("lam"), None);
    assert_eq!(reg.resolve("lampp"), None);
}

#[test]
fn empty_registry_resolves_nothing() {
    let reg = RelayRegistry::from_pairs(&Vec::new());
    assert_eq!(reg.resolve("lamp"), None);
}

#[test]
fn duplicate_name_keeps_first_pin() {
    let reg = RelayRegistry::from_pairs(&pairs(&[("lamp", 3), ("lamp", 9)]));
    assert_eq!(reg.resolve("lamp"), Some(3));
}

#[test]
fn pin_can_be_any_byte() {
    let reg = RelayRegistry::from_pairs(&pairs(&[("min", 0), ("max", 255)]));
    assert_eq!(reg.resolve("min"), Some(0));
    assert_eq!(reg.resolve("max"), Some(255));
}
