use lora_node::identity::DeviceIdentity;

#[test]
fn absent_overrides_resolve_to_all_zero() {
    let id = DeviceIdentity::resolve(None, None, None);
    assert_eq!(id.dev_eui, [0u8; 8]);
    assert_eq!(id.app_eui, [0u8; 8]);
    assert_eq!(id.app_key, [0u8; 16]);
}

#[test]
fn present_overrides_are_kept() {
    let dev = [1u8, 2, 3, 4, 5, 6, 7, 8];
    let app = [9u8, 10, 11, 12, 13, 14, 15, 16];
    let key = [
        0x2bu8, 0x7e, 0x15, 0x16, 0x28, 0xae, 0xd2, 0xa6, 0xab, 0xf7, 0x15, 0x88, 0x09, 0xcf,
        0x4f, 0x3c,
    ];
    let id = DeviceIdentity::resolve(Some(dev), Some(app), Some(key));
    assert_eq!(id.dev_eui, dev);
    assert_eq!(id.app_eui, app);
    assert_eq!(id.app_key, key);
}

#[test]
fn overrides_resolve_independently() {
    let dev = [0xdeu8, 0xad, 0xbe, 0xef, 0x00, 0x11, 0x22, 0x33];
    let id = DeviceIdentity::resolve(Some(dev), None, None);
    assert_eq!(id.dev_eui, dev);
    assert_eq!(id.app_eui, [0u8; 8]);
    assert_eq!(id.app_key, [0u8; 16]);

    let key = [7u8; 16];
    let id2 = DeviceIdentity::resolve(None, None, Some(key));
    assert_eq!(id2.dev_eui, [0u8; 8]);
    assert_eq!(id2.app_key, key);
}
