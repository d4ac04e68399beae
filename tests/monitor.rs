use hotplug_pve::monitor::{Action, Input, Phase, QMPMonitor, Request, Task};
use hotplug_pve::response::{MonitorError, Reply, ReturnValue};

fn ok() -> Input {
    Input::Line(Some(Reply::Return(ReturnValue::Other)))
}

fn error(class: &str) -> Input {
    Input::Line(Some(Reply::Error { class: class.to_string(), desc: "no".to_string() }))
}

fn connect(m: &mut QMPMonitor, task: Task) -> Action {
    assert!(matches!(m.start(task), Action::Connect));
    assert!(matches!(m.step(Input::Connected), Action::ReadGreeting));
    match m.step(Input::Line(None)) {
        Action::Send(Request::Handshake) => {}
        other => panic!("expected handshake, got {:?}", other),
    }
    m.step(ok())
}

#[test]
fn socket_path_is_per_vm() {
    assert_eq!(QMPMonitor::new(101).socket_path(), "/var/run/qemu-server/101.qmp");
    assert_eq!(QMPMonitor::new(0).socket_path(), "/var/run/qemu-server/0.qmp");
    assert_eq!(QMPMonitor::new(-5).socket_path(), "/var/run/qemu-server/-5.qmp");
}

#[test]
fn requests_serialize_to_protocol_text() {
    assert_eq!(Request::Handshake.to_json(), r#"{"execute":"qmp_capabilities","arguments":{}}"#);
    assert_eq!(
        Request::QueryController.to_json(),
        r#"{"execute":"qom-get","arguments":{"path":"/machine/peripheral/xhci","property":"realized"}}"#
    );
    assert_eq!(
        Request::AddController.to_json(),
        r#"{"execute":"device_add","arguments":{"id":"xhci","driver":"nec-usb-xhci","bus":"pci.1","addr":"0x1b"}}"#
    );
    assert_eq!(
        Request::AddUsb { id: "hotplug-1-2".to_string(), vendor: 0x0483, product: 0x5741 }.to_json(),
        r#"{"execute":"device_add","arguments":{"id":"hotplug-1-2","driver":"usb-host","bus":"xhci.0","vendorid":"0x0483","productid":"0x5741"}}"#
    );
    assert_eq!(
        Request::RemoveUsb { id: "hotplug-1-2".to_string() }.to_json(),
        r#"{"execute":"device_del","arguments":{"id":"hotplug-1-2"}}"#
    );
}

#[test]
fn vm_not_running_is_unavailable() {
    let mut m = QMPMonitor::new(5);
    assert!(matches!(m.add_device("hotplug-1".to_string(), 1, 2), Action::Connect));
    assert!(matches!(m.step(Input::ConnectFailed), Action::Finished(Err(MonitorError::Unavailable))));
    assert_eq!(m.phase, Phase::Closed);
}

#[test]
fn ensure_controller_twice_adds_it_once() {
    let mut m = QMPMonitor::new(7);
    let mut controller_adds = 0;
    assert!(matches!(connect(&mut m, Task::EnsureController), Action::Send(Request::QueryController)));
    match m.step(Input::Line(Some(Reply::Return(ReturnValue::Bool(false))))) {
        Action::Send(Request::AddController) => controller_adds += 1,
        other => panic!("unexpected {:?}", other),
    }
    assert!(matches!(m.step(ok()), Action::Finished(Ok(()))));
    assert!(m.controller_ready);
    assert_eq!(m.phase, Phase::Ready);
    match m.ensure_controller() {
        Action::Finished(Ok(())) => {}
        Action::Send(Request::AddController) => controller_adds += 1,
        other => panic!("unexpected {:?}", other),
    }
    assert_eq!(controller_adds, 1);
}

#[test]
fn realized_controller_is_not_added() {
    let mut m = QMPMonitor::new(7);
    let a = connect(&mut m, Task::Attach { id: "hotplug-1".to_string(), vendor: 1, product: 2 });
    assert!(matches!(a, Action::Send(Request::QueryController)));
    match m.step(Input::Line(Some(Reply::Return(ReturnValue::Bool(true))))) {
        Action::Send(Request::AddUsb { id, vendor, product }) => {
            assert_eq!(id, "hotplug-1");
            assert_eq!((vendor, product), (1, 2));
        }
        other => panic!("unexpected {:?}", other),
    }
    assert!(matches!(m.step(ok()), Action::Finished(Ok(()))));
    // a second attach on the same connection goes straight to the device
    assert!(matches!(
        m.add_device("hotplug-2".to_string(), 3, 4),
        Action::Send(Request::AddUsb { .. })
    ));
}

#[test]
fn missing_controller_is_added_before_the_device() {
    let mut m = QMPMonitor::new(7);
    connect(&mut m, Task::Attach { id: "hotplug-1".to_string(), vendor: 1, product: 2 });
    assert!(matches!(m.step(error("DeviceNotFound")), Action::Send(Request::AddController)));
    assert!(matches!(m.step(ok()), Action::Send(Request::AddUsb { .. })));
    assert!(matches!(m.step(error("GenericError")), Action::Finished(Err(MonitorError::CommandFailed { .. }))));
    assert_eq!(m.phase, Phase::Ready);
}

#[test]
fn remove_tolerates_absent_device() {
    let mut m = QMPMonitor::new(7);
    assert!(matches!(
        connect(&mut m, Task::Detach { id: "hotplug-1".to_string() }),
        Action::Send(Request::RemoveUsb { .. })
    ));
    assert!(matches!(m.step(error("DeviceNotFound")), Action::Finished(Ok(()))));
    assert!(matches!(m.remove_device("hotplug-1".to_string()), Action::Send(Request::RemoveUsb { .. })));
    match m.step(error("GenericError")) {
        Action::Finished(Err(MonitorError::CommandFailed { class, desc })) => {
            assert_eq!(class, "GenericError");
            assert_eq!(desc, "no");
        }
        other => panic!("unexpected {:?}", other),
    }
}

#[test]
fn broken_replies_close_the_connection() {
    let mut m = QMPMonitor::new(7);
    connect(&mut m, Task::EnsureController);
    let a = m.step(Input::Line(Some(Reply::Return(ReturnValue::Str("yes".to_string())))));
    assert!(matches!(a, Action::Finished(Err(MonitorError::CommunicationFailed))));
    assert_eq!(m.phase, Phase::Closed);

    let mut n = QMPMonitor::new(8);
    n.start(Task::Detach { id: "x".to_string() });
    n.step(Input::Connected);
    assert!(matches!(n.step(Input::IoFailed), Action::Finished(Err(MonitorError::CommunicationFailed))));

    let mut h = QMPMonitor::new(9);
    h.start(Task::EnsureController);
    h.step(Input::Connected);
    h.step(Input::Line(None));
    assert!(matches!(h.step(error("CommandNotFound")), Action::Finished(Err(MonitorError::CommunicationFailed))));
    assert!(matches!(h.step(ok()), Action::Idle));
}

#[test]
fn rejected_controller_add_closes_the_connection() {
    let mut m = QMPMonitor::new(7);
    connect(&mut m, Task::EnsureController);
    assert!(matches!(m.step(Input::Line(Some(Reply::Return(ReturnValue::Bool(false))))), Action::Send(Request::AddController)));
    match m.step(error("GenericError")) {
        Action::Finished(Err(MonitorError::CommandFailed { class, .. })) => assert_eq!(class, "GenericError"),
        other => panic!("unexpected {:?}", other),
    }
    assert_eq!(m.phase, Phase::Closed);
    assert!(!m.controller_ready);
    assert!(!m.is_idle());
}

#[test]
fn request_lines_hold_no_line_break() {
    let r = Request::AddUsb { id: "a\nb\u{1}\"".to_string(), vendor: 1, product: 2 };
    let text = r.to_json();
    assert!(!text.contains('\n'));
    assert!(text.contains(r#""id":"a\nb\u0001\"""#));
}
