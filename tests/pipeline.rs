use hotplug_pve::monitor::{Action, Input, QMPMonitor, Request};
use hotplug_pve::pipeline::{task_for, Dispatch, Outcome, Report};
use hotplug_pve::response::{MonitorError, Reply, ReturnValue};
use hotplug_pve::routing::Configuration;
use hotplug_pve::usb::{EventKind, NotificationKind, USBEvent};

/// A host where the VMs in `running` answer on their sockets and those in
/// `rejecting` refuse every device command.
struct Host {
    running: Vec<i32>,
    rejecting: Vec<i32>,
    connects: Vec<i32>,
    sent: Vec<(i32, String)>,
}

impl Host {
    fn new(running: &[i32], rejecting: &[i32]) -> Host {
        Host { running: running.to_vec(), rejecting: rejecting.to_vec(), connects: vec![], sent: vec![] }
    }

    fn reply(&self, vm: i32, req: &Request) -> Input {
        let value = match req {
            Request::QueryController => ReturnValue::Bool(true),
            _ => ReturnValue::Other,
        };
        let device = matches!(req, Request::AddUsb { .. } | Request::RemoveUsb { .. });
        if device && self.rejecting.contains(&vm) {
            Input::Line(Some(Reply::Error { class: "GenericError".to_string(), desc: "no".to_string() }))
        } else {
            Input::Line(Some(Reply::Return(value)))
        }
    }

    fn dispatch(&mut self, config: &Configuration, event: &USBEvent) -> Dispatch {
        let mut d = Dispatch::for_event(config, event);
        while let Some(vm) = d.next_target() {
            let mut m = QMPMonitor::new(vm);
            let mut a = m.start(task_for(event));
            let result = loop {
                a = match a {
                    Action::Connect => {
                        self.connects.push(vm);
                        if self.running.contains(&vm) {
                            m.step(Input::Connected)
                        } else {
                            m.step(Input::ConnectFailed)
                        }
                    }
                    Action::ReadGreeting => m.step(Input::Line(None)),
                    Action::Send(req) => {
                        self.sent.push((vm, req.to_json()));
                        let input = self.reply(vm, &req);
                        m.step(input)
                    }
                    Action::Finished(r) => break r,
                    Action::Idle => panic!("monitor went idle"),
                };
            };
            d.record(&result);
        }
        d
    }

    fn device_commands(&self, name: &str) -> Vec<i32> {
        let needle = format!("\"execute\":\"{}\"", name);
        self.sent
            .iter()
            .filter(|(_, s)| s.contains(&needle) && s.contains("hotplug-"))
            .map(|(vm, _)| *vm)
            .collect()
    }
}

fn config(targets: Vec<i32>, default_target: Option<i32>) -> Configuration {
    Configuration { device_mapping: vec![("0483:5741".to_string(), targets)], default_target }
}

fn attach() -> USBEvent {
    USBEvent::from_notification(NotificationKind::Add, "1/2".to_string(), "0483/5741/480").unwrap()
}

fn detach() -> USBEvent {
    USBEvent::from_notification(NotificationKind::Remove, "1/2".to_string(), "0483/5741/480").unwrap()
}

#[test]
fn attach_stops_at_first_running_target() {
    let mut host = Host::new(&[7, 9], &[]);
    let d = host.dispatch(&config(vec![5, 7, 9], None), &attach());
    assert_eq!(host.device_commands("device_add"), vec![7]);
    assert_eq!(host.connects, vec![5, 7]);
    assert_eq!(d.delivered_to, Some(7));
    assert_eq!(d.unavailable, vec![5]);
    assert_eq!(d.report(), Report::Delivered { vmid: 7, multiple_targets: true });
}

#[test]
fn attach_passes_over_a_rejecting_target() {
    let mut host = Host::new(&[5, 7], &[5]);
    let d = host.dispatch(&config(vec![5, 7, 9], None), &attach());
    assert_eq!(host.device_commands("device_add"), vec![5, 7]);
    assert_eq!(d.failed, vec![5]);
    assert_eq!(d.delivered_to, Some(7));
}

#[test]
fn detach_reaches_every_target() {
    let mut host = Host::new(&[5, 7, 9], &[7]);
    let d = host.dispatch(&config(vec![5, 7, 9], None), &detach());
    assert_eq!(host.device_commands("device_del"), vec![5, 7, 9]);
    assert_eq!(d.next, 3);
    assert_eq!(d.report(), Report::Detached);
}

#[test]
fn end_to_end_attach_to_running_vm() {
    let mut host = Host::new(&[101, 102], &[]);
    let d = host.dispatch(&config(vec![101], None), &attach());
    assert_eq!(host.connects, vec![101]);
    assert_eq!(host.device_commands("device_add"), vec![101]);
    assert!(host.sent.contains(&(
        101,
        r#"{"execute":"device_add","arguments":{"id":"hotplug-1-2","driver":"usb-host","bus":"xhci.0","vendorid":"0x0483","productid":"0x5741"}}"#
            .to_string()
    )));
    assert_eq!(d.report(), Report::Delivered { vmid: 101, multiple_targets: false });
}

#[test]
fn end_to_end_attach_to_stopped_vm() {
    let mut host = Host::new(&[], &[]);
    let cfg = config(vec![101], None);
    let d = host.dispatch(&cfg, &attach());
    assert!(host.sent.is_empty());
    assert_eq!(d.unavailable, vec![101]);
    assert_eq!(d.report(), Report::Undelivered);
    // the pipeline goes on with the next event
    let e = host.dispatch(&cfg, &detach());
    assert_eq!(e.unavailable, vec![101]);
    assert_eq!(e.report(), Report::Detached);
}

#[test]
fn unrouted_attach_is_reported() {
    let mut host = Host::new(&[1], &[]);
    let cfg = Configuration { device_mapping: vec![], default_target: None };
    let d = host.dispatch(&cfg, &attach());
    assert_eq!(d.report(), Report::NoTarget);
    assert!(host.connects.is_empty());
    let e = host.dispatch(&cfg, &detach());
    assert_eq!(e.report(), Report::Detached);
}

#[test]
fn default_target_is_tried_last() {
    let mut host = Host::new(&[3], &[]);
    let d = host.dispatch(&config(vec![101], Some(3)), &attach());
    assert_eq!(host.connects, vec![101, 3]);
    assert_eq!(d.delivered_to, Some(3));
}

#[test]
fn dispatch_records_outcomes() {
    let mut d = Dispatch::new(EventKind::Attached, vec![1, 2]);
    assert_eq!(d.next_target(), Some(1));
    d.record(&Err(MonitorError::CommunicationFailed));
    assert_eq!(d.failed, vec![1]);
    assert_eq!(d.next_target(), Some(2));
    d.record(&Err(MonitorError::Unavailable));
    assert_eq!(d.next_target(), None);
    assert_eq!(d.report(), Report::Undelivered);
    assert_eq!(hotplug_pve::pipeline::classify(&Ok(())), Outcome::Success);
}
