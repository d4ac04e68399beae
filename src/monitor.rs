//! The client side of one VM's QMP control socket, as a state machine.
//!
//! The monitor decides; its caller does the I/O. Each call returns the
//! next `Action` (connect, read the greeting, send a request and read its
//! reply, or report the outcome), and the caller feeds back what happened
//! as an `Input`.
use vstd::prelude::*;
use crate::commands::{
    build_command, command_text, json_member, json_object, json_plain, lemma_plain_quoted, printable,
    string_member, Argument,
};
use crate::response::{MonitorError, Reply, ReturnValue};
use crate::text::{chars_of, hex4, hex_digit, push_hex4, push_signed_decimal, signed_decimal, str_eq, string_from_chars};

verus! {

/// Where a connection stands.
#[derive(Clone, Copy, Debug, PartialEq, Eq, Structural)]
pub enum Phase {
    Disconnected,
    Connecting,
    AwaitingGreeting,
    Negotiating,
    Ready,
    QueryingController,
    AddingController,
    AwaitingDevice,
    Closed,
}

/// What the caller asked of the connection.
#[derive(Debug)]
pub enum Task {
    EnsureController,
    Attach { id: String, vendor: u16, product: u16 },
    Detach { id: String },
}

/// The requests that the client sends.
#[derive(Debug)]
pub enum Request {
    Handshake,
    /// Whether the USB controller object is realized.
    QueryController,
    /// Creates the USB controller.
    AddController,
    /// Binds the host device `vendor:product` under the name `id`.
    AddUsb { id: String, vendor: u16, product: u16 },
    RemoveUsb { id: String },
}

/// What happened since the last action.
#[derive(Debug)]
pub enum Input {
    Connected,
    ConnectFailed,
    /// A line was read; `None` when it is not a reply envelope.
    Line(Option<Reply>),
    IoFailed,
}

/// What the caller must do next.
#[derive(Debug)]
pub enum Action {
    /// Open the socket at `socket_path()`.
    Connect,
    /// Read one line and discard it.
    ReadGreeting,
    /// Write the request as one line, then read one reply line.
    Send(Request),
    /// The task is over, with this outcome.
    Finished(Result<(), MonitorError>),
    /// Nothing to do.
    Idle,
}

/// One connection to one VM's control socket.
#[derive(Debug)]
pub struct QMPMonitor {
    pub vmid: i32,
    pub phase: Phase,
    /// Whether the USB controller is known to exist on this connection.
    pub controller_ready: bool,
    pub task: Option<Task>,
}

/// `0x` followed by four lowercase hex digits.
pub open spec fn hex_id(v: u16) -> Seq<char> {
    seq!['0', 'x'] + hex4(v)
}

/// The wire text of each request.
pub open spec fn request_text(r: Request) -> Seq<char> {
    match r {
        Request::Handshake => command_text("qmp_capabilities"@, Seq::empty()),
        Request::QueryController => command_text(
            "qom-get"@,
            seq![
                string_member("path"@, "/machine/peripheral/xhci"@),
                string_member("property"@, "realized"@),
            ],
        ),
        Request::AddController => command_text(
            "device_add"@,
            seq![
                string_member("id"@, "xhci"@),
                string_member("driver"@, "nec-usb-xhci"@),
                string_member("bus"@, "pci.1"@),
                string_member("addr"@, "0x1b"@),
            ],
        ),
        Request::AddUsb { id, vendor, product } => command_text(
            "device_add"@,
            seq![
                string_member("id"@, id@),
                string_member("driver"@, "usb-host"@),
                string_member("bus"@, "xhci.0"@),
                string_member("vendorid"@, hex_id(vendor)),
                string_member("productid"@, hex_id(product)),
            ],
        ),
        Request::RemoveUsb { id } => command_text("device_del"@, seq![string_member("id"@, id@)]),
    }
}

fn hex_id_string(v: u16) -> (r: String)
    ensures
        r@ == hex_id(v),
{
    let mut cs: Vec<char> = vec!['0', 'x'];
    push_hex4(&mut cs, v);
    string_from_chars(&cs)
}

impl Request {
    /// The request as one line of JSON.
    pub fn to_json(&self) -> (r: String)
        ensures
            r@ == request_text(*self),
            printable(r@),
    {
        match self {
            Request::Handshake => {
                let m = build_command(Argument::Handshake {  });
                let r = m.to_json();
                assert(crate::commands::argument_members(m.arguments) =~= Seq::<Seq<char>>::empty());
                r
            },
            Request::QueryController => {
                let m = build_command(
                    Argument::QomGet { path: "/machine/peripheral/xhci", property: "realized" },
                );
                m.to_json()
            },
            Request::AddController => {
                let m = build_command(
                    Argument::DeviceAdd {
                        id: "xhci",
                        driver: "nec-usb-xhci",
                        bus: "pci.1",
                        addr: Some("0x1b"),
                        vendorid: None,
                        productid: None,
                    },
                );
                let r = m.to_json();
                assert(crate::commands::argument_members(m.arguments) =~= seq![
                    string_member("id"@, "xhci"@),
                    string_member("driver"@, "nec-usb-xhci"@),
                    string_member("bus"@, "pci.1"@),
                    string_member("addr"@, "0x1b"@),
                ]);
                r
            },
            Request::AddUsb { id, vendor, product } => {
                let vs = hex_id_string(*vendor);
                let ps = hex_id_string(*product);
                let m = build_command(
                    Argument::DeviceAdd {
                        id: id.as_str(),
                        driver: "usb-host",
                        bus: "xhci.0",
                        addr: None,
                        vendorid: Some(vs.as_str()),
                        productid: Some(ps.as_str()),
                    },
                );
                let r = m.to_json();
                assert(crate::commands::argument_members(m.arguments) =~= seq![
                    string_member("id"@, id@),
                    string_member("driver"@, "usb-host"@),
                    string_member("bus"@, "xhci.0"@),
                    string_member("vendorid"@, hex_id(*vendor)),
                    string_member("productid"@, hex_id(*product)),
                ]);
                r
            },
            Request::RemoveUsb { id } => {
                let m = build_command(Argument::DeviceRemove { id: id.as_str() });
                m.to_json()
            },
        }
    }
}

/// The path of a VM's control socket.
pub open spec fn socket_path_of(vmid: i32) -> Seq<char> {
    "/var/run/qemu-server/"@ + signed_decimal(vmid as int) + ".qmp"@
}

/// The connection is closed and the task fails with `e`.
pub open spec fn closed(m: QMPMonitor, e: MonitorError) -> (QMPMonitor, Action) {
    (QMPMonitor { phase: Phase::Closed, task: None, ..m }, Action::Finished(Err(e)))
}

/// The task is over with outcome `r`; the connection stays usable.
pub open spec fn finished(m: QMPMonitor, r: Result<(), MonitorError>) -> (QMPMonitor, Action) {
    (QMPMonitor { phase: Phase::Ready, task: None, ..m }, Action::Finished(r))
}

/// The handshake is done: the next step of the task.
pub open spec fn on_ready(m: QMPMonitor) -> (QMPMonitor, Action) {
    match m.task {
        None => (QMPMonitor { phase: Phase::Ready, ..m }, Action::Idle),
        Some(Task::EnsureController) => if m.controller_ready {
            finished(m, Ok(()))
        } else {
            (QMPMonitor { phase: Phase::QueryingController, ..m }, Action::Send(Request::QueryController))
        },
        Some(Task::Attach { id, vendor, product }) => if m.controller_ready {
            (
                QMPMonitor { phase: Phase::AwaitingDevice, ..m },
                Action::Send(Request::AddUsb { id, vendor, product }),
            )
        } else {
            (QMPMonitor { phase: Phase::QueryingController, ..m }, Action::Send(Request::QueryController))
        },
        Some(Task::Detach { id }) => (
            QMPMonitor { phase: Phase::AwaitingDevice, ..m },
            Action::Send(Request::RemoveUsb { id }),
        ),
    }
}

/// The controller exists: go on with the task.
pub open spec fn with_controller(m: QMPMonitor) -> (QMPMonitor, Action) {
    on_ready(QMPMonitor { controller_ready: true, ..m })
}

/// A device error that removal takes as success: the device is not there.
pub open spec fn is_absent_error(class: Seq<char>) -> bool {
    class == "DeviceNotFound"@
}

/// The transition on one input. A read or write failure, or a reply of the
/// wrong shape, closes the connection. So does a rejected request to create
/// the controller: the controller step is taken at most once per
/// connection. Any other error reply ends the task but keeps the connection.
pub open spec fn transition(m: QMPMonitor, input: Input) -> (QMPMonitor, Action) {
    match m.phase {
        Phase::Connecting => match input {
            Input::Connected => (QMPMonitor { phase: Phase::AwaitingGreeting, ..m }, Action::ReadGreeting),
            Input::ConnectFailed => closed(m, MonitorError::Unavailable),
            _ => closed(m, MonitorError::CommunicationFailed),
        },
        Phase::AwaitingGreeting => match input {
            Input::Line(_) => (
                QMPMonitor { phase: Phase::Negotiating, ..m },
                Action::Send(Request::Handshake),
            ),
            _ => closed(m, MonitorError::CommunicationFailed),
        },
        Phase::Negotiating => match input {
            Input::Line(Some(Reply::Return(_))) => on_ready(m),
            _ => closed(m, MonitorError::CommunicationFailed),
        },
        Phase::QueryingController => match input {
            Input::Line(Some(Reply::Return(ReturnValue::Bool(true)))) => with_controller(m),
            Input::Line(Some(Reply::Return(ReturnValue::Bool(false)))) => (
                QMPMonitor { phase: Phase::AddingController, ..m },
                Action::Send(Request::AddController),
            ),
            Input::Line(Some(Reply::Error { .. })) => (
                QMPMonitor { phase: Phase::AddingController, ..m },
                Action::Send(Request::AddController),
            ),
            _ => closed(m, MonitorError::CommunicationFailed),
        },
        Phase::AddingController => match input {
            Input::Line(Some(Reply::Return(_))) => with_controller(m),
            Input::Line(Some(Reply::Error { class, desc })) => closed(
                m,
                MonitorError::CommandFailed { class, desc },
            ),
            _ => closed(m, MonitorError::CommunicationFailed),
        },
        Phase::AwaitingDevice => match input {
            Input::Line(Some(Reply::Return(_))) => finished(m, Ok(())),
            Input::Line(Some(Reply::Error { class, desc })) => if m.task is Some && m.task->Some_0 is Detach
                && is_absent_error(class@) {
                finished(m, Ok(()))
            } else {
                finished(m, Err(MonitorError::CommandFailed { class, desc }))
            },
            _ => closed(m, MonitorError::CommunicationFailed),
        },
        _ => (m, Action::Idle),
    }
}

/// Taking on a task: connect first if not connected yet.
pub open spec fn started(m: QMPMonitor, task: Task) -> (QMPMonitor, Action) {
    if m.phase == Phase::Disconnected {
        (QMPMonitor { phase: Phase::Connecting, task: Some(task), ..m }, Action::Connect)
    } else {
        on_ready(QMPMonitor { task: Some(task), ..m })
    }
}

impl QMPMonitor {
    /// The phase and the task agree: a task is held exactly while it is
    /// being worked on, and the controller is looked for only until it is
    /// known to exist.
    pub open spec fn wf(self) -> bool {
        match self.phase {
            Phase::Disconnected | Phase::Ready | Phase::Closed => self.task is None,
            Phase::Connecting | Phase::AwaitingGreeting | Phase::Negotiating => self.task is Some,
            Phase::QueryingController | Phase::AddingController => {
                &&& !self.controller_ready
                &&& self.task matches Some(t) && (t is EnsureController || t is Attach)
            },
            Phase::AwaitingDevice => self.task matches Some(t) && (t is Detach || (t is Attach
                && self.controller_ready)),
        }
    }

    /// A monitor for VM `vmid`, not connected yet.
    pub fn new(vmid: i32) -> (r: QMPMonitor)
        ensures
            r.vmid == vmid,
            r.phase == Phase::Disconnected,
            !r.controller_ready,
            r.task is None,
            r.wf(),
    {
        QMPMonitor { vmid, phase: Phase::Disconnected, controller_ready: false, task: None }
    }

    /// The control socket of this VM: `/var/run/qemu-server/<vmid>.qmp`.
    pub fn socket_path(&self) -> (r: String)
        ensures
            r@ == socket_path_of(self.vmid),
    {
        let mut cs = chars_of("/var/run/qemu-server/");
        push_signed_decimal(&mut cs, self.vmid);
        let mut s = string_from_chars(&cs);
        s.append(".qmp");
        s
    }

    /// Whether a new task can be taken on.
    pub fn is_idle(&self) -> (r: bool)
        ensures
            r == (self.phase == Phase::Disconnected || self.phase == Phase::Ready),
    {
        self.phase == Phase::Disconnected || self.phase == Phase::Ready
    }

    fn close(&mut self, e: MonitorError) -> (a: Action)
        ensures
            (*final(self), a) == closed(*old(self), e),
    {
        self.phase = Phase::Closed;
        self.task = None;
        Action::Finished(Err(e))
    }

    fn finish(&mut self, r: Result<(), MonitorError>) -> (a: Action)
        ensures
            (*final(self), a) == finished(*old(self), r),
    {
        self.phase = Phase::Ready;
        self.task = None;
        Action::Finished(r)
    }

    fn advance(&mut self) -> (a: Action)
        ensures
            (*final(self), a) == on_ready(*old(self)),
    {
        let controller_ready = self.controller_ready;
        match &self.task {
            None => {
                self.phase = Phase::Ready;
                Action::Idle
            },
            Some(Task::EnsureController) => {
                if controller_ready {
                    self.finish(Ok(()))
                } else {
                    self.phase = Phase::QueryingController;
                    Action::Send(Request::QueryController)
                }
            },
            Some(Task::Attach { id, vendor, product }) => {
                if controller_ready {
                    let r = Request::AddUsb { id: id.clone(), vendor: *vendor, product: *product };
                    self.phase = Phase::AwaitingDevice;
                    Action::Send(r)
                } else {
                    self.phase = Phase::QueryingController;
                    Action::Send(Request::QueryController)
                }
            },
            Some(Task::Detach { id }) => {
                let r = Request::RemoveUsb { id: id.clone() };
                self.phase = Phase::AwaitingDevice;
                Action::Send(r)
            },
        }
    }

    fn advance_with_controller(&mut self) -> (a: Action)
        ensures
            (*final(self), a) == with_controller(*old(self)),
    {
        self.controller_ready = true;
        self.advance()
    }

    /// Takes on a task; the connection must be idle.
    pub fn start(&mut self, task: Task) -> (a: Action)
        requires
            old(self).wf(),
            old(self).phase == Phase::Disconnected || old(self).phase == Phase::Ready,
        ensures
            final(self).wf(),
            (*final(self), a) == started(*old(self), task),
    {
        proof {
            lemma_started_wf(*self, task);
        }
        if self.phase == Phase::Disconnected {
            self.phase = Phase::Connecting;
            self.task = Some(task);
            Action::Connect
        } else {
            self.task = Some(task);
            self.advance()
        }
    }

    /// Makes sure that the USB controller exists: asks whether it is
    /// realized, and creates it if not. A no-op once it is known to exist.
    pub fn ensure_controller(&mut self) -> (a: Action)
        requires
            old(self).wf(),
            old(self).phase == Phase::Disconnected || old(self).phase == Phase::Ready,
        ensures
            final(self).wf(),
            (*final(self), a) == started(*old(self), Task::EnsureController),
    {
        self.start(Task::EnsureController)
    }

    /// Attaches host device `vendor:product` under the name `id`, after
    /// making sure that the USB controller exists.
    pub fn add_device(&mut self, id: String, vendor: u16, product: u16) -> (a: Action)
        requires
            old(self).wf(),
            old(self).phase == Phase::Disconnected || old(self).phase == Phase::Ready,
        ensures
            final(self).wf(),
            (*final(self), a) == started(*old(self), Task::Attach { id, vendor, product }),
    {
        self.start(Task::Attach { id, vendor, product })
    }

    /// Detaches the device named `id`; a device that is not there counts
    /// as removed.
    pub fn remove_device(&mut self, id: String) -> (a: Action)
        requires
            old(self).wf(),
            old(self).phase == Phase::Disconnected || old(self).phase == Phase::Ready,
        ensures
            final(self).wf(),
            (*final(self), a) == started(*old(self), Task::Detach { id }),
    {
        self.start(Task::Detach { id })
    }

    /// Takes in what happened and returns the next action.
    pub fn step(&mut self, input: Input) -> (a: Action)
        requires
            old(self).wf(),
        ensures
            final(self).wf(),
            (*final(self), a) == transition(*old(self), input),
    {
        proof {
            lemma_transition_wf(*self, input);
        }
        match self.phase {
            Phase::Connecting => match input {
                Input::Connected => {
                    self.phase = Phase::AwaitingGreeting;
                    Action::ReadGreeting
                },
                Input::ConnectFailed => self.close(MonitorError::Unavailable),
                _ => self.close(MonitorError::CommunicationFailed),
            },
            Phase::AwaitingGreeting => match input {
                Input::Line(_) => {
                    self.phase = Phase::Negotiating;
                    Action::Send(Request::Handshake)
                },
                _ => self.close(MonitorError::CommunicationFailed),
            },
            Phase::Negotiating => match input {
                Input::Line(Some(Reply::Return(_))) => self.advance(),
                _ => self.close(MonitorError::CommunicationFailed),
            },
            Phase::QueryingController => match input {
                Input::Line(Some(reply)) => match reply.expect_bool() {
                    Ok(true) => self.advance_with_controller(),
                    Ok(false) | Err(MonitorError::CommandFailed { .. }) => {
                        self.phase = Phase::AddingController;
                        Action::Send(Request::AddController)
                    },
                    Err(_) => self.close(MonitorError::CommunicationFailed),
                },
                _ => self.close(MonitorError::CommunicationFailed),
            },
            Phase::AddingController => match input {
                Input::Line(Some(Reply::Return(_))) => self.advance_with_controller(),
                Input::Line(Some(Reply::Error { class, desc })) => self.close(
                    MonitorError::CommandFailed { class, desc },
                ),
                _ => self.close(MonitorError::CommunicationFailed),
            },
            Phase::AwaitingDevice => match input {
                Input::Line(Some(Reply::Return(_))) => self.finish(Ok(())),
                Input::Line(Some(Reply::Error { class, desc })) => {
                    let detaching = match &self.task {
                        Some(Task::Detach { .. }) => true,
                        _ => false,
                    };
                    if detaching && str_eq(class.as_str(), "DeviceNotFound") {
                        self.finish(Ok(()))
                    } else {
                        self.finish(Err(MonitorError::CommandFailed { class, desc }))
                    }
                },
                _ => self.close(MonitorError::CommunicationFailed),
            },
            _ => Action::Idle,
        }
    }
}

proof fn lemma_on_ready_wf(m: QMPMonitor)
    requires
        m.task is Some,
    ensures
        on_ready(m).0.wf(),
{
}

proof fn lemma_started_wf(m: QMPMonitor, task: Task)
    requires
        m.wf(),
        m.phase == Phase::Disconnected || m.phase == Phase::Ready,
    ensures
        started(m, task).0.wf(),
{
    if m.phase != Phase::Disconnected {
        lemma_on_ready_wf(QMPMonitor { task: Some(task), ..m });
    }
}

proof fn lemma_transition_wf(m: QMPMonitor, input: Input)
    requires
        m.wf(),
    ensures
        transition(m, input).0.wf(),
{
    if m.task is Some {
        lemma_on_ready_wf(m);
        lemma_on_ready_wf(QMPMonitor { controller_ready: true, ..m });
    }
}

proof fn lemma_hex_id_plain(v: u16)
    ensures
        json_plain(hex_id(v)),
{
    let s = hex_id(v);
    assert forall|k: int| 0 <= k < s.len() implies ({
        let c = #[trigger] s[k];
        c >= ' ' && c != '"' && c != '\\'
    }) by {
        if k >= 2 {
            let d = if k == 2 {
                (v as int / 4096) % 16
            } else if k == 3 {
                (v as int / 256) % 16
            } else if k == 4 {
                (v as int / 16) % 16
            } else {
                v as int % 16
            };
            assert(s[k] == hex_digit(d));
        }
    }
}

/// The request that attaches a device is exactly this line, for every id
/// made of plain characters (no quote, backslash or control character):
/// `{"execute":"device_add","arguments":{"id":"<id>","driver":"usb-host",
/// "bus":"xhci.0","vendorid":"0x<vvvv>","productid":"0x<pppp>"}}`.
#[verifier::spinoff_prover]
#[verifier::rlimit(100)]
pub proof fn law_usb_add_line(r: Request)
    requires
        r matches Request::AddUsb { id, .. } && json_plain(id@),
    ensures
        r matches Request::AddUsb { id, vendor, product } ==> request_text(r)
            == "{\"execute\":\"device_add\",\"arguments\":{\"id\":\""@ + id@
            + "\",\"driver\":\"usb-host\",\"bus\":\"xhci.0\",\"vendorid\":\""@ + hex_id(vendor)
            + "\",\"productid\":\""@ + hex_id(product) + "\"}}"@,
{
    if let Request::AddUsb { id, vendor, product } = r {
        reveal_strlit("execute");
        reveal_strlit("device_add");
        reveal_strlit("arguments");
        reveal_strlit("id");
        reveal_strlit("driver");
        reveal_strlit("usb-host");
        reveal_strlit("bus");
        reveal_strlit("xhci.0");
        reveal_strlit("vendorid");
        reveal_strlit("productid");
        reveal_strlit("{\"execute\":\"device_add\",\"arguments\":{\"id\":\"");
        reveal_strlit("\",\"driver\":\"usb-host\",\"bus\":\"xhci.0\",\"vendorid\":\"");
        reveal_strlit("\",\"productid\":\"");
        reveal_strlit("\"}}");
        lemma_plain_quoted("execute"@);
        lemma_plain_quoted("device_add"@);
        lemma_plain_quoted("arguments"@);
        lemma_plain_quoted("id"@);
        lemma_plain_quoted(id@);
        lemma_plain_quoted("driver"@);
        lemma_plain_quoted("usb-host"@);
        lemma_plain_quoted("bus"@);
        lemma_plain_quoted("xhci.0"@);
        lemma_plain_quoted("vendorid"@);
        lemma_hex_id_plain(vendor);
        lemma_plain_quoted(hex_id(vendor));
        lemma_plain_quoted("productid"@);
        lemma_hex_id_plain(product);
        lemma_plain_quoted(hex_id(product));
        let ms = seq![
            string_member("id"@, id@),
            string_member("driver"@, "usb-host"@),
            string_member("bus"@, "xhci.0"@),
            string_member("vendorid"@, hex_id(vendor)),
            string_member("productid"@, hex_id(product)),
        ];
        assert(ms.drop_last().drop_last().drop_last().drop_last() =~= seq![ms[0]]);
        assert(ms.drop_last().drop_last().drop_last() =~= seq![ms[0], ms[1]]);
        assert(ms.drop_last().drop_last() =~= seq![ms[0], ms[1], ms[2]]);
        assert(ms.drop_last() =~= seq![ms[0], ms[1], ms[2], ms[3]]);
        let top = seq![
            string_member("execute"@, "device_add"@),
            json_member("arguments"@, json_object(ms)),
        ];
        assert(top.drop_last() =~= seq![top[0]]);
        let j1 = ms[0];
        let j2 = j1 + seq![','] + ms[1];
        let j3 = j2 + seq![','] + ms[2];
        let j4 = j3 + seq![','] + ms[3];
        let j5 = j4 + seq![','] + ms[4];
        assert(crate::commands::join_members(seq![ms[0]]) == j1);
        assert(crate::commands::join_members(seq![ms[0], ms[1]]) == j2);
        assert(crate::commands::join_members(seq![ms[0], ms[1], ms[2]]) == j3);
        assert(crate::commands::join_members(seq![ms[0], ms[1], ms[2], ms[3]]) == j4);
        assert(crate::commands::join_members(ms) == j5);
        assert(crate::commands::join_members(seq![top[0]]) == top[0]);
        assert(crate::commands::join_members(top) == top[0] + seq![','] + top[1]);
        assert(request_text(r) == seq!['{'] + top[0] + seq![','] + top[1] + seq!['}']);
        assert(request_text(r) =~= "{\"execute\":\"device_add\",\"arguments\":{\"id\":\""@ + id@
            + "\",\"driver\":\"usb-host\",\"bus\":\"xhci.0\",\"vendorid\":\""@ + hex_id(vendor)
            + "\",\"productid\":\""@ + hex_id(product) + "\"}}"@);
    }
}

/// One thing that happens to a connection: a task is taken on, or an input
/// comes in.
pub ghost enum Event {
    Begin(Task),
    Receive(Input),
}

/// The transition on one event. A task offered to a busy or closed
/// connection is not taken on (`start` does not admit it).
pub open spec fn on_event(m: QMPMonitor, e: Event) -> (QMPMonitor, Action) {
    match e {
        Event::Begin(task) => if m.phase == Phase::Disconnected || m.phase == Phase::Ready {
            started(m, task)
        } else {
            (m, Action::Idle)
        },
        Event::Receive(input) => transition(m, input),
    }
}

/// How many requests to create the controller go out over `events`.
pub open spec fn controller_adds(m: QMPMonitor, events: Seq<Event>) -> nat
    decreases events.len(),
{
    if events.len() == 0 {
        0
    } else {
        let (m2, a) = on_event(m, events[0]);
        (if a matches Action::Send(Request::AddController) {
            1nat
        } else {
            0nat
        }) + controller_adds(m2, events.drop_first())
    }
}

/// How many more controller requests a connection may still send.
pub open spec fn controller_budget(m: QMPMonitor) -> nat {
    if m.controller_ready || m.phase == Phase::Closed || m.phase == Phase::AddingController {
        0
    } else {
        1
    }
}

proof fn lemma_controller_budget(m: QMPMonitor, events: Seq<Event>)
    requires
        m.wf(),
    ensures
        controller_adds(m, events) <= controller_budget(m),
    decreases events.len(),
{
    if events.len() > 0 {
        let e = events[0];
        let (m2, a) = on_event(m, e);
        match e {
            Event::Begin(task) => {
                if m.phase == Phase::Disconnected || m.phase == Phase::Ready {
                    lemma_started_wf(m, task);
                }
            },
            Event::Receive(input) => {
                lemma_transition_wf(m, input);
            },
        }
        lemma_controller_budget(m2, events.drop_first());
    }
}

/// On one connection the controller is created at most once: whatever
/// tasks are taken on and whatever the VM answers, at most one request to
/// create it goes out, and none once it is known to exist.
pub proof fn law_controller_added_at_most_once(m: QMPMonitor, events: Seq<Event>)
    requires
        m.wf(),
    ensures
        controller_adds(m, events) <= 1,
        m.controller_ready ==> controller_adds(m, events) == 0,
{
    lemma_controller_budget(m, events);
}

/// Idempotence of `ensure_controller`. Once the controller is known to
/// exist on a connection it stays known, and no later step or task sends
/// another request to create it; such a request goes out only while the
/// controller was just found missing, and the step after it either knows
/// the controller or closes the connection. An `ensure_controller` that
/// ends leaves the connection knowing the controller, or closed. On a ready
/// connection that knows the controller, `ensure_controller` sends nothing
/// and reports success at once.
pub proof fn law_ensure_controller_idempotent(m: QMPMonitor, input: Input, task: Task)
    requires
        m.wf(),
    ensures
        m.controller_ready ==> transition(m, input).0.controller_ready,
        m.controller_ready ==> !(transition(m, input).1 matches Action::Send(
            Request::AddController,
        )),
        m.controller_ready && (m.phase == Phase::Disconnected || m.phase == Phase::Ready) ==> {
            &&& started(m, task).0.controller_ready
            &&& !(started(m, task).1 matches Action::Send(Request::AddController))
        },
        transition(m, input).1 matches Action::Send(Request::AddController) ==> m.phase
            == Phase::QueryingController && !m.controller_ready,
        m.phase == Phase::AddingController ==> {
            ||| transition(m, input).0.controller_ready
            ||| transition(m, input).0.phase == Phase::Closed
        },
        m.controller_ready && m.phase == Phase::Ready ==> started(m, Task::EnsureController) == (
            m,
            Action::Finished(Ok(())),
        ),
        m.task == Some(Task::EnsureController) && transition(m, input).1 == Action::Finished(
            Ok(()),
        ) ==> transition(m, input).0.controller_ready,
        m.task == Some(Task::EnsureController) && transition(m, input).1 is Finished ==> {
            ||| transition(m, input).0.controller_ready
            ||| transition(m, input).0.phase == Phase::Closed
        },
{
}


} // verus!
