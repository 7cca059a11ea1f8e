use t2fand::discovery::fan_path;

#[test]
fn fan_path_drops_the_input_suffix() {
    assert_eq!(
        fan_path("/sys/devices/pci0000:00/APP0001:00/fan1_input"),
        Some("/sys/devices/pci0000:00/APP0001:00/fan1".to_string())
    );
    assert_eq!(fan_path("fan12_input"), Some("fan12".to_string()));
    assert_eq!(fan_path("_input"), Some(String::new()));
    assert_eq!(fan_path("ventilateur_é_input"), Some("ventilateur_é".to_string()));
}

#[test]
fn fan_path_wants_the_input_suffix() {
    for other in ["", "input", "fan1_inpu", "fan1_output", "fan1_input ", "fan1_INPUT", "fan1_input/"] {
        assert_eq!(fan_path(other), None, "{other:?}");
    }
}
