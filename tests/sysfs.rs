use libmonitor::ddc::sysfs::{adapter_parent, connector_name, ignore_device_by_name, is_phantom_bus, AdapterParent};

#[test]
fn ignored_adapter_names() {
    assert!(ignore_device_by_name(b"SMBus I801 adapter"));
    assert!(ignore_device_by_name(b"soc:i2cdsi"));
    assert!(ignore_device_by_name(b"u4 extra"));
    assert!(!ignore_device_by_name(b"AMDGPU DM i2c hw bus 0"));
    assert!(!ignore_device_by_name(b"SMB"));
    assert!(!ignore_device_by_name(b""));
}

#[test]
fn phantom_buses() {
    assert!(is_phantom_bus(false, None, None));
    assert!(is_phantom_bus(true, Some(b"disabled\n"), Some(b" disconnected\n")));
    assert!(!is_phantom_bus(true, Some(b"enabled\n"), Some(b"disconnected\n")));
    assert!(!is_phantom_bus(true, Some(b"disabled"), None));
    assert!(!is_phantom_bus(true, Some(b"disabledx"), Some(b"disconnected")));
}

#[test]
fn adapter_parents() {
    assert_eq!(adapter_parent(Some(b"drm"), None), AdapterParent::Drm);
    assert_eq!(adapter_parent(Some(b"pci"), Some(b"Display controller")), AdapterParent::DisplayController);
    assert_eq!(adapter_parent(Some(b"pci"), Some(b"VGA compatible controller")), AdapterParent::Other);
    assert_eq!(adapter_parent(None, None), AdapterParent::Other);
}

#[test]
fn connector_names() {
    assert_eq!(connector_name(b"card0-DP-1"), Some(b"DP-1".to_vec()));
    assert_eq!(connector_name(b"card0"), None);
}
