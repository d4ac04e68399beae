use hotplug_pve::usb::{parse_product, EventKind, NotificationKind, USBEvent};

fn event(kind: NotificationKind, product: &str) -> Option<USBEvent> {
    USBEvent::from_notification(kind, "1/2".to_string(), product)
}

#[test]
fn device_str_is_canonical() {
    let e = event(NotificationKind::Add, "483/5741/200").unwrap();
    assert_eq!(e.device_str(), "0483:5741");
    let upper = event(NotificationKind::Add, "0483/5741/200").unwrap();
    assert_eq!(upper.device_str(), "0483:5741");
    let mixed = event(NotificationKind::Remove, "0A5c/21E8/0").unwrap();
    assert_eq!(mixed.device_str(), "0a5c:21e8");
    let padded = event(NotificationKind::Add, "00001/2/x").unwrap();
    assert_eq!(padded.device_str(), "0001:0002");
}

#[test]
fn notification_kinds() {
    assert_eq!(event(NotificationKind::Add, "1/2/3").unwrap().event_type, EventKind::Attached);
    assert_eq!(event(NotificationKind::Remove, "1/2/3").unwrap().event_type, EventKind::Detached);
    assert!(event(NotificationKind::Other, "1/2/3").is_none());
}

#[test]
fn product_field_needs_three_parts() {
    assert_eq!(parse_product("483/5741/200"), Some((0x483, 0x5741)));
    assert_eq!(parse_product("483/5741/"), Some((0x483, 0x5741)));
    assert_eq!(parse_product("483/5741"), None);
    assert_eq!(parse_product("483/5741/200/1"), None);
    assert_eq!(parse_product(""), None);
    assert_eq!(parse_product("//"), None);
}

#[test]
fn product_ids_must_be_16_bit_hex() {
    assert_eq!(parse_product("ffff/FFFF/0"), Some((0xffff, 0xffff)));
    assert_eq!(parse_product("10000/1/0"), None);
    assert_eq!(parse_product("1/10000/0"), None);
    assert_eq!(parse_product("12g/1/0"), None);
    assert_eq!(parse_product("+1/1/0"), None);
    assert_eq!(parse_product("1/ 1/0"), None);
}

#[test]
fn device_id_replaces_slashes() {
    let e = USBEvent::from_notification(NotificationKind::Add, "1/2".to_string(), "1/2/3").unwrap();
    assert_eq!(e.get_id(), "hotplug-1-2");
    let f = USBEvent::from_notification(NotificationKind::Add, "usb1".to_string(), "1/2/3").unwrap();
    assert_eq!(f.get_id(), "hotplug-usb1");
    assert_eq!(e.vendor, 1);
    assert_eq!(e.product, 2);
}
