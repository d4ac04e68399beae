//! The event pipeline: which targets an event is dispatched to, in which
//! order, and when dispatch stops.
//!
//! An attach goes to one VM: the targets are tried in order, and the first
//! that accepts the device ends the dispatch. A target that is not running,
//! or that is running but rejects the device, is passed over for the next.
//! A detach goes to every target, whatever each answers, since the pipeline
//! does not track which one received the device.
use vstd::prelude::*;
use crate::monitor::Task;
use crate::response::MonitorError;
use crate::routing::{find_vids_for, resolve_targets, Configuration};
use crate::usb::{device_id, device_key, EventKind, USBEvent};

verus! {

/// How the exchange with one target ended.
#[derive(Clone, Copy, Debug, PartialEq, Eq, Structural)]
pub enum Outcome {
    Success,
    /// The VM is not running.
    Unavailable,
    /// The VM answered with an error, or the exchange broke down.
    Failed,
}

/// The outcome that a monitor's result stands for.
pub open spec fn outcome_of(r: Result<(), MonitorError>) -> Outcome {
    match r {
        Ok(()) => Outcome::Success,
        Err(MonitorError::Unavailable) => Outcome::Unavailable,
        Err(_) => Outcome::Failed,
    }
}

pub fn classify(r: &Result<(), MonitorError>) -> (o: Outcome)
    ensures
        o == outcome_of(*r),
{
    match r {
        Ok(()) => Outcome::Success,
        Err(MonitorError::Unavailable) => Outcome::Unavailable,
        Err(_) => Outcome::Failed,
    }
}

/// The dispatch of one event over its resolved targets.
#[derive(Debug)]
pub struct Dispatch {
    pub kind: EventKind,
    pub targets: Vec<i32>,
    /// How many targets have been dealt with, in order.
    pub next: usize,
    /// For an attach, the VM that accepted the device.
    pub delivered_to: Option<i32>,
    /// The targets that were not running.
    pub unavailable: Vec<i32>,
    /// The targets that were running but did not succeed.
    pub failed: Vec<i32>,
}

pub ghost struct DispatchView {
    pub kind: EventKind,
    pub targets: Seq<i32>,
    pub next: int,
    pub delivered_to: Option<i32>,
    pub unavailable: Seq<i32>,
    pub failed: Seq<i32>,
}

impl View for Dispatch {
    type V = DispatchView;

    open spec fn view(&self) -> DispatchView {
        DispatchView {
            kind: self.kind,
            targets: self.targets@,
            next: self.next as int,
            delivered_to: self.delivered_to,
            unavailable: self.unavailable@,
            failed: self.failed@,
        }
    }
}

/// What the pipeline reports once an event is dispatched.
#[derive(Clone, Copy, Debug, PartialEq, Eq, Structural)]
pub enum Report {
    /// An attached device has no target at all.
    NoTarget,
    /// The device went to `vmid`; `multiple_targets` notes that more than
    /// one target was configured and the first that accepted it won.
    Delivered { vmid: i32, multiple_targets: bool },
    /// No target accepted the attached device.
    Undelivered,
    /// A detach was sent to every target that was running.
    Detached,
}

impl DispatchView {
    /// The target to contact next, if dispatch goes on.
    pub open spec fn pending(self) -> Option<i32> {
        if self.delivered_to is Some || self.next >= self.targets.len() || self.next < 0 {
            None
        } else {
            Some(self.targets[self.next])
        }
    }

    /// The dispatch after the pending target ended with `o`.
    pub open spec fn after(self, o: Outcome) -> DispatchView {
        let t = self.targets[self.next];
        DispatchView {
            next: self.next + 1,
            delivered_to: if self.kind == EventKind::Attached && o == Outcome::Success {
                Some(t)
            } else {
                None
            },
            unavailable: if o == Outcome::Unavailable {
                self.unavailable.push(t)
            } else {
                self.unavailable
            },
            failed: if o == Outcome::Failed {
                self.failed.push(t)
            } else {
                self.failed
            },
            ..self
        }
    }

    /// The targets contacted so far, in order.
    pub open spec fn contacted(self) -> Seq<i32> {
        self.targets.take(self.next)
    }

    pub open spec fn report(self) -> Report {
        if self.kind == EventKind::Detached {
            Report::Detached
        } else if self.targets.len() == 0 {
            Report::NoTarget
        } else {
            match self.delivered_to {
                Some(vmid) => Report::Delivered { vmid, multiple_targets: self.targets.len() > 1 },
                None => Report::Undelivered,
            }
        }
    }
}

/// A dispatch that has not contacted anyone yet.
pub open spec fn fresh(kind: EventKind, targets: Seq<i32>) -> DispatchView {
    DispatchView {
        kind,
        targets,
        next: 0,
        delivered_to: None,
        unavailable: Seq::empty(),
        failed: Seq::empty(),
    }
}

/// The dispatch once every contacted target `k` has ended with
/// `outcomes[k]`.
pub open spec fn run(d: DispatchView, outcomes: Seq<Outcome>) -> DispatchView
    decreases d.targets.len() - d.next,
{
    if d.pending() is None || d.next >= outcomes.len() {
        d
    } else {
        run(d.after(outcomes[d.next]), outcomes)
    }
}

/// The index of the first success at or after `i`, or the length when
/// there is none.
pub open spec fn first_success(outcomes: Seq<Outcome>, i: int) -> int
    decreases outcomes.len() - i,
{
    if i >= outcomes.len() {
        outcomes.len() as int
    } else if outcomes[i] == Outcome::Success {
        i
    } else {
        first_success(outcomes, i + 1)
    }
}

impl Dispatch {
    pub open spec fn wf(&self) -> bool {
        &&& self.next <= self.targets@.len()
        &&& self.delivered_to is Some ==> self.kind == EventKind::Attached
    }

    /// Starts the dispatch of an event of `kind` to `targets`.
    pub fn new(kind: EventKind, targets: Vec<i32>) -> (r: Dispatch)
        ensures
            r@ == fresh(kind, targets@),
            r.wf(),
    {
        Dispatch {
            kind,
            targets,
            next: 0,
            delivered_to: None,
            unavailable: Vec::new(),
            failed: Vec::new(),
        }
    }

    /// Resolves the event's targets and starts its dispatch.
    pub fn for_event(config: &Configuration, event: &USBEvent) -> (r: Dispatch)
        ensures
            r@ == fresh(
                event.event_type,
                resolve_targets(*config, device_key(event.vendor, event.product)),
            ),
            r.wf(),
    {
        let key = event.device_str();
        let targets = find_vids_for(config, key.as_str());
        Dispatch::new(event.event_type, targets)
    }

    /// The target to contact next; `None` once dispatch is over.
    pub fn next_target(&self) -> (r: Option<i32>)
        requires
            self.wf(),
        ensures
            r == self@.pending(),
    {
        if self.delivered_to.is_some() || self.next >= self.targets.len() {
            None
        } else {
            Some(self.targets[self.next])
        }
    }

    /// Records how the exchange with the pending target ended.
    pub fn record(&mut self, result: &Result<(), MonitorError>)
        requires
            old(self).wf(),
            old(self)@.pending() is Some,
        ensures
            final(self).wf(),
            final(self)@ == old(self)@.after(outcome_of(*result)),
    {
        let len = self.targets.len();
        let t = self.targets[self.next];
        assert(self.next < len);
        let n = self.next + 1;
        let o = classify(result);
        if self.kind == EventKind::Attached && o == Outcome::Success {
            self.delivered_to = Some(t);
        }
        if o == Outcome::Unavailable {
            self.unavailable.push(t);
        }
        if o == Outcome::Failed {
            self.failed.push(t);
        }
        self.next = n;
    }

    /// What to report once dispatch is over.
    pub fn report(&self) -> (r: Report)
        ensures
            r == self@.report(),
    {
        if self.kind == EventKind::Detached {
            Report::Detached
        } else if self.targets.len() == 0 {
            Report::NoTarget
        } else {
            match self.delivered_to {
                Some(vmid) => Report::Delivered { vmid, multiple_targets: self.targets.len() > 1 },
                None => Report::Undelivered,
            }
        }
    }
}

/// What each target is asked to do for an event.
pub fn task_for(event: &USBEvent) -> (t: Task)
    ensures
        match event.event_type {
            EventKind::Attached => t matches Task::Attach { id, vendor, product } && id@ == device_id(
                event.identifier@,
            ) && vendor == event.vendor && product == event.product,
            EventKind::Detached => t matches Task::Detach { id } && id@ == device_id(
                event.identifier@,
            ),
        },
{
    let id = event.get_id();
    match event.event_type {
        EventKind::Attached => Task::Attach { id, vendor: event.vendor, product: event.product },
        EventKind::Detached => Task::Detach { id },
    }
}

proof fn lemma_attach_run(d: DispatchView, outcomes: Seq<Outcome>)
    requires
        d.kind == EventKind::Attached,
        d.delivered_to is None,
        0 <= d.next <= d.targets.len(),
        outcomes.len() == d.targets.len(),
    ensures
        ({
            let r = run(d, outcomes);
            let k = first_success(outcomes, d.next);
            &&& k < outcomes.len() ==> r.next == k + 1 && r.delivered_to == Some(d.targets[k])
            &&& k >= outcomes.len() ==> r.next == outcomes.len() && r.delivered_to is None
            &&& r.targets == d.targets
            &&& r.pending() is None
        }),
    decreases d.targets.len() - d.next,
{
    if d.next < d.targets.len() {
        let e = d.after(outcomes[d.next]);
        if outcomes[d.next] == Outcome::Success {
            assert(e.pending() is None);
            assert(run(e, outcomes) == e);
        } else {
            lemma_attach_run(e, outcomes);
        }
    }
}

proof fn lemma_detach_run(d: DispatchView, outcomes: Seq<Outcome>)
    requires
        d.kind == EventKind::Detached,
        d.delivered_to is None,
        0 <= d.next <= d.targets.len(),
        outcomes.len() == d.targets.len(),
    ensures
        run(d, outcomes).next == d.targets.len(),
        run(d, outcomes).targets == d.targets,
        run(d, outcomes).delivered_to is None,
    decreases d.targets.len() - d.next,
{
    if d.next < d.targets.len() {
        lemma_detach_run(d.after(outcomes[d.next]), outcomes);
    }
}

/// Attach dispatch stops at the first target that succeeds. With target
/// `k` ending in `outcomes[k]`, the targets contacted are those up to and
/// including the first success, which receives the device, and no target
/// after it; without any success every target is contacted and none
/// receives the device.
pub proof fn law_attach_stops_at_first_success(targets: Seq<i32>, outcomes: Seq<Outcome>)
    requires
        outcomes.len() == targets.len(),
    ensures
        ({
            let r = run(fresh(EventKind::Attached, targets), outcomes);
            let k = first_success(outcomes, 0);
            &&& r.pending() is None
            &&& k < targets.len() ==> r.contacted() == targets.take(k + 1) && r.delivered_to == Some(
                targets[k],
            )
            &&& k >= targets.len() ==> r.contacted() == targets && r.delivered_to is None
        }),
{
    lemma_attach_run(fresh(EventKind::Attached, targets), outcomes);
    let r = run(fresh(EventKind::Attached, targets), outcomes);
    assert(r.targets.take(targets.len() as int) =~= targets);
}

/// Detach dispatch is exhaustive: whatever each target answers, every
/// target is contacted, in order.
pub proof fn law_detach_contacts_every_target(targets: Seq<i32>, outcomes: Seq<Outcome>)
    requires
        outcomes.len() == targets.len(),
    ensures
        run(fresh(EventKind::Detached, targets), outcomes).contacted() == targets,
        run(fresh(EventKind::Detached, targets), outcomes).pending() is None,
{
    lemma_detach_run(fresh(EventKind::Detached, targets), outcomes);
    let r = run(fresh(EventKind::Detached, targets), outcomes);
    assert(r.targets.take(targets.len() as int) =~= targets);
}

} // verus!
