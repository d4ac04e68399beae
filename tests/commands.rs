use hotplug_pve::commands::{build_command, Argument, Command};

#[test]
fn test_command_handshake() {
    assert_eq!(
        r#"{"execute":"qmp_capabilities","arguments":{}}"#,
        build_command(Argument::Handshake {}).to_json()
    );
}

#[test]
fn test_command_qom_list() {
    assert_eq!(
        r#"{"execute":"qom-list","arguments":{"path":"/"}}"#,
        build_command(Argument::QomList { path: "/" }).to_json()
    );
}

#[test]
fn test_command_qom_get() {
    assert_eq!(
        r#"{"execute":"qom-get","arguments":{"path":"/","property":"type"}}"#,
        build_command(Argument::QomGet {
            path: "/",
            property: "type"
        })
        .to_json()
    );
}

#[test]
fn device_add_serializes_in_protocol_order() {
    let m = build_command(Argument::DeviceAdd {
        id: "hotplug-1-2",
        driver: "usb-host",
        bus: "xhci.0",
        addr: None,
        vendorid: Some("0x0483"),
        productid: Some("0x5741"),
    });
    assert_eq!(m.execute, Command::DeviceAdd);
    assert_eq!(
        m.to_json(),
        r#"{"execute":"device_add","arguments":{"id":"hotplug-1-2","driver":"usb-host","bus":"xhci.0","vendorid":"0x0483","productid":"0x5741"}}"#
    );
}

#[test]
fn every_argument_gets_its_command() {
    assert_eq!(build_command(Argument::Handshake {}).execute, Command::Handshake);
    assert_eq!(build_command(Argument::QueryCommands {}).execute, Command::QueryCommands);
    assert_eq!(build_command(Argument::QomList { path: "/" }).execute, Command::QomList);
    assert_eq!(
        build_command(Argument::QomGet { path: "/", property: "p" }).execute,
        Command::QomGet
    );
    assert_eq!(build_command(Argument::DeviceRemove { id: "x" }).execute, Command::DeviceRemove);
    assert_eq!(
        build_command(Argument::QueryCommands {}).to_json(),
        r#"{"execute":"query-commands","arguments":{}}"#
    );
    assert_eq!(
        build_command(Argument::DeviceRemove { id: "hotplug-3" }).to_json(),
        r#"{"execute":"device_del","arguments":{"id":"hotplug-3"}}"#
    );
}

#[test]
fn string_values_are_escaped() {
    let m = build_command(Argument::QomList { path: "a\"b\\c\nd" });
    let text = m.to_json();
    assert_eq!(text, r#"{"execute":"qom-list","arguments":{"path":"a\"b\\c\nd"}}"#);
    assert!(!text.contains('\n'));
}

#[test]
fn controller_add_carries_addr_only() {
    let m = build_command(Argument::DeviceAdd {
        id: "xhci",
        driver: "nec-usb-xhci",
        bus: "pci.1",
        addr: Some("0x1b"),
        vendorid: None,
        productid: None,
    });
    assert_eq!(
        m.to_json(),
        r#"{"execute":"device_add","arguments":{"id":"xhci","driver":"nec-usb-xhci","bus":"pci.1","addr":"0x1b"}}"#
    );
}
