use gantry_crane::homeassistant::device::Device;

#[test]
fn device_test_new() {
    let name = "Test Device".to_owned();
    let manufacturer = Some("Test Manufacturer".into());
    let dev = Device::new(name.clone(), manufacturer.clone());

    assert_eq!(dev.name, name);
    assert_eq!(dev.manufacturer, manufacturer);
    assert_eq!(dev.identifiers.len(), 1);
    assert!(!dev.identifiers[0].contains(" "));
}

#[test]
fn test_new_with_identifier() {
    let dev = Device::new_with_identifier(
        "dockerproxy (docker01-rrnuc)".into(),
        "gc_docker01-rrnuc_dockerproxy".into(),
        Some("Docker".into()),
    );

    assert_eq!(dev.name, "dockerproxy (docker01-rrnuc)");
    assert_eq!(
        dev.identifiers,
        vec!["gc_docker01-rrnuc_dockerproxy".to_owned()]
    );
}

#[test]
fn device_new_identifier_is_gc_and_normalized_name() {
    let dev = Device::new("Test Device".to_owned(), None);
    assert_eq!(dev.identifiers, vec!["gc_test_device".to_owned()]);
    assert_eq!(dev.manufacturer, None);
    assert_eq!(dev.model, None);
    assert_eq!(dev.sw_version, None);

    let dev = Device::new("///".to_owned(), Some("Docker".to_owned()));
    assert_eq!(dev.identifiers, vec!["gc_unknown".to_owned()]);
    assert_eq!(dev.manufacturer.as_deref(), Some("Docker"));
}

#[test]
fn device_identifiers_never_hold_spaces() {
    for name in ["a b c", "   ", "Tab\tName", "Docker Proxy (node 1)"] {
        let dev = Device::new(name.to_owned(), None);
        assert!(!dev.identifiers[0].contains(' '));
        assert!(dev.identifiers[0].starts_with("gc_"));
    }
}
