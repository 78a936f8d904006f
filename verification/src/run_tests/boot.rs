//! Waiting for a node to boot: a probe is sent until one is answered, a
//! bounded number of times and with a fixed pause after each failure.

use crate::inject_message::{
    Exchange, ExchangePhase, ExchangeStep, ExchangeStepView, ExchangeView, Request, RequestView,
};
use crate::json::{
    document_text, insert_member, json_text, new_members, object_value, text_value, JsonDoc,
};
use crate::machine::{
    result_view, Effect, EffectView, Event, RunError, RunErrorView, Step, StepView,
};
use crate::text::{decimal, decimal_text};
use vstd::prelude::*;
use vstd::string::*;

verus! {

/// The address of the node that listens on a port of this machine.
pub open spec fn node_url(port: u16) -> Seq<char> {
    "http://localhost:"@ + decimal(port as nat)
}

/// Computes [`node_url`].
pub fn make_node_url(port: u16) -> (r: String)
    ensures
        r@ == node_url(port),
{
    let digits = decimal_text(port as u64);
    String::from_str("http://localhost:").concat(digits.as_str())
}

/// An action on the virtual filesystem of a node, as a document.
pub open spec fn vfs_action_doc(path: Seq<char>, action: Seq<char>) -> JsonDoc {
    JsonDoc::Object(
        Map::<Seq<char>, JsonDoc>::empty().insert("path"@, JsonDoc::Text(path)).insert(
            "action"@,
            JsonDoc::Text(action),
        ),
    )
}

/// The body of a message that asks for an action on the virtual
/// filesystem of a node.
pub fn vfs_action_body(path: &str, action: &str) -> (r: String)
    ensures
        r@ == json_text(vfs_action_doc(path@, action@)),
{
    let mut members = new_members();
    insert_member(&mut members, "path", text_value(path));
    insert_member(&mut members, "action", text_value(action));
    let doc = object_value(members);
    document_text(&doc)
}

/// A request to the virtual filesystem of the node at a port, to be
/// answered within 15 seconds.
pub open spec fn vfs_request(port: u16, path: Seq<char>, action: Seq<char>) -> RequestView {
    RequestView {
        url: node_url(port),
        process: "vfs:distro:sys"@,
        expects_response: Some(15u64),
        body: json_text(vfs_action_doc(path, action)),
        node: None,
    }
}

/// Computes [`vfs_request`].
pub fn make_vfs_request(port: u16, path: &str, action: &str) -> (r: Request)
    ensures
        r@ == vfs_request(port, path@, action@),
{
    Request {
        url: make_node_url(port),
        process: String::from_str("vfs:distro:sys"),
        expects_response: Some(15),
        body: vfs_action_body(path, action),
        node: None,
    }
}

/// The probe: it asks the node at a port to list the directory of the
/// tester's packages.
pub open spec fn probe_request(port: u16) -> RequestView {
    vfs_request(port, "/tester:sys/pkg"@, "ReadDir"@)
}

/// The seconds to pause after a probe that failed.
pub const PROBE_INTERVAL: u64 = 1;

/// How far the wait for a node has come.
#[derive(Clone, Copy, Debug, PartialEq, Eq, Structural)]
pub enum BootPhase {
    /// A probe is under way.
    Probing,
    /// The pause after a probe that failed.
    Pausing,
    /// The wait is over.
    Finished,
}

/// The wait for one node to boot, as a state machine.
#[derive(Debug, PartialEq, Eq)]
pub struct BootWaiter {
    pub port: u16,
    /// How many probes may be sent.
    pub max_waits: u16,
    /// How many probes have been sent.
    pub attempts: u16,
    pub phase: BootPhase,
    /// The probe under way, or the last one.
    pub probe: Exchange,
}

/// What a [`BootWaiter`] holds.
pub struct BootWaiterView {
    pub port: u16,
    pub max_waits: u16,
    pub attempts: u16,
    pub phase: BootPhase,
    pub probe: ExchangeView,
}

impl View for BootWaiter {
    type V = BootWaiterView;

    open spec fn view(&self) -> BootWaiterView {
        BootWaiterView {
            port: self.port,
            max_waits: self.max_waits,
            attempts: self.attempts,
            phase: self.phase,
            probe: self.probe@,
        }
    }
}

impl BootWaiterView {
    /// The probe of this wait, posted.
    pub open spec fn probing(self) -> ExchangeView {
        ExchangeView {
            request: probe_request(self.port),
            decode: true,
            phase: ExchangePhase::Posting,
        }
    }

    /// No probe has been sent more than may be, and at least one has been
    /// sent once the wait is under way.
    pub open spec fn wf(self) -> bool {
        &&& self.attempts <= self.max_waits
        &&& (self.phase is Probing || self.phase is Pausing) ==> self.attempts >= 1
    }

    /// The wait over, with a result.
    pub open spec fn end(self, result: Result<(), RunErrorView>) -> (BootWaiterView, StepView) {
        (BootWaiterView { phase: BootPhase::Finished, ..self }, StepView::Finish(result))
    }

    /// One more probe is sent.
    pub open spec fn attempt(self) -> (BootWaiterView, StepView) {
        (
            BootWaiterView {
                attempts: (self.attempts + 1) as u16,
                phase: BootPhase::Probing,
                probe: self.probing(),
                ..self
            },
            StepView::Perform(probe_request(self.port).post(None)),
        )
    }

    /// The first step: a probe, or failure at once where none may be sent.
    pub open spec fn start(port: u16, max_waits: u16) -> (BootWaiterView, StepView) {
        let fresh = BootWaiterView {
            port,
            max_waits,
            attempts: 0,
            phase: BootPhase::Finished,
            probe: ExchangeView {
                request: probe_request(port),
                decode: true,
                phase: ExchangePhase::Finished,
            },
        };
        if max_waits == 0 {
            fresh.end(Err(RunErrorView::CouldNotConnect(port)))
        } else {
            fresh.attempt()
        }
    }

    /// The step that an event leads to. A probe that is answered and
    /// decoded ends the wait in success at once. After any other probe
    /// comes a pause; cancellation during the pause ends the wait as
    /// cancelled; after the pause comes the next probe or, where none is
    /// left, the end: the node could not be reached.
    pub open spec fn next(self, event: Event) -> (BootWaiterView, StepView) {
        match self.phase {
            BootPhase::Probing => {
                let (probe, out) = self.probe.next(event);
                let moved = BootWaiterView { probe, ..self };
                match out {
                    ExchangeStepView::Perform(effect) => (moved, StepView::Perform(effect)),
                    ExchangeStepView::Finish(Ok(_)) => moved.end(Ok(())),
                    ExchangeStepView::Finish(Err(_)) => (
                        BootWaiterView { phase: BootPhase::Pausing, ..moved },
                        StepView::Perform(EffectView::Pause { seconds: PROBE_INTERVAL }),
                    ),
                }
            },
            BootPhase::Pausing => match event {
                Event::Cancelled => self.end(Err(RunErrorView::Cancelled)),
                Event::Paused => if self.attempts < self.max_waits {
                    self.attempt()
                } else {
                    self.end(Err(RunErrorView::CouldNotConnect(self.port)))
                },
                _ => self.end(Err(RunErrorView::Unexpected)),
            },
            BootPhase::Finished => self.end(Err(RunErrorView::Unexpected)),
        }
    }
}

impl BootWaiter {
    fn end(self, result: Result<(), RunError>) -> (r: (BootWaiter, Step))
        ensures
            (r.0@, r.1@) == self@.end(result_view(result)),
    {
        (
            BootWaiter {
                port: self.port,
                max_waits: self.max_waits,
                attempts: self.attempts,
                phase: BootPhase::Finished,
                probe: self.probe,
            },
            Step::Finish(result),
        )
    }

    fn attempt(self) -> (r: (BootWaiter, Step))
        requires
            self.attempts < self.max_waits,
        ensures
            (r.0@, r.1@) == self@.attempt(),
    {
        let request = make_vfs_request(self.port, "/tester:sys/pkg", "ReadDir");
        let effect = request.post(None);
        (
            BootWaiter {
                port: self.port,
                max_waits: self.max_waits,
                attempts: self.attempts + 1,
                phase: BootPhase::Probing,
                probe: Exchange { request, decode: true, phase: ExchangePhase::Posting },
            },
            Step::Perform(effect),
        )
    }

    /// Begins the wait for the node at a port: see
    /// [`BootWaiterView::start`].
    pub fn start(port: u16, max_waits: u16) -> (r: (BootWaiter, Step))
        ensures
            (r.0@, r.1@) == BootWaiterView::start(port, max_waits),
            r.0@.wf(),
    {
        let fresh = BootWaiter {
            port,
            max_waits,
            attempts: 0,
            phase: BootPhase::Finished,
            probe: Exchange {
                request: make_vfs_request(port, "/tester:sys/pkg", "ReadDir"),
                decode: true,
                phase: ExchangePhase::Finished,
            },
        };
        if max_waits == 0 {
            fresh.end(Err(RunError::CouldNotConnect(port)))
        } else {
            fresh.attempt()
        }
    }

    /// Takes the event that answers the effect asked for last: see
    /// [`BootWaiterView::next`].
    pub fn step(self, event: Event) -> (r: (BootWaiter, Step))
        ensures
            (r.0@, r.1@) == self@.next(event),
            self@.wf() ==> r.0@.wf(),
    {
        match self.phase {
            BootPhase::Probing => {
                let (probe, out) = self.probe.step(event);
                let moved = BootWaiter {
                    port: self.port,
                    max_waits: self.max_waits,
                    attempts: self.attempts,
                    phase: self.phase,
                    probe,
                };
                match out {
                    ExchangeStep::Perform(effect) => (moved, Step::Perform(effect)),
                    ExchangeStep::Finish(Ok(_)) => moved.end(Ok(())),
                    ExchangeStep::Finish(Err(_)) => (
                        BootWaiter {
                            port: moved.port,
                            max_waits: moved.max_waits,
                            attempts: moved.attempts,
                            phase: BootPhase::Pausing,
                            probe: moved.probe,
                        },
                        Step::Perform(Effect::Pause { seconds: PROBE_INTERVAL }),
                    ),
                }
            },
            BootPhase::Pausing => match event {
                Event::Cancelled => self.end(Err(RunError::Cancelled)),
                Event::Paused => {
                    if self.attempts < self.max_waits {
                        self.attempt()
                    } else {
                        let port = self.port;
                        self.end(Err(RunError::CouldNotConnect(port)))
                    }
                },
                _ => self.end(Err(RunError::Unexpected)),
            },
            BootPhase::Finished => self.end(Err(RunError::Unexpected)),
        }
    }
}

/// Waits until the node at a port has booted, with at most `max_waits`
/// probes. The driver reports cancellation as the event `Cancelled`.
pub fn wait_until_booted(port: u16, max_waits: u16) -> (r: (BootWaiter, Step))
    ensures
        (r.0@, r.1@) == BootWaiterView::start(port, max_waits),
        r.0@.wf(),
{
    BootWaiter::start(port, max_waits)
}

/// A step keeps the count of probes within what may be sent.
pub proof fn lemma_boot_step_keeps_wf(waiter: BootWaiterView, event: Event)
    requires
        waiter.wf(),
    ensures
        waiter.next(event).0.wf(),
{
}

/// The count of probes goes up by one with each probe sent, and only then:
/// a step that asks for a post out of a pause has sent one more.
pub proof fn lemma_boot_attempts_counted(waiter: BootWaiterView, event: Event)
    requires
        waiter.wf(),
    ensures
        waiter.next(event).0.attempts == if waiter.phase is Pausing && event is Paused
            && waiter.attempts < waiter.max_waits {
            waiter.attempts + 1
        } else {
            waiter.attempts as int
        },
        waiter.phase is Pausing && waiter.next(event).1 is Perform ==> waiter.next(event).1
            == StepView::Perform(probe_request(waiter.port).post(None)),
{
}

/// The wait ends as "could not connect" only after the pause that follows
/// the last probe allowed: every probe has been sent by then, and none
/// was answered.
pub proof fn lemma_boot_exhaustion(waiter: BootWaiterView, event: Event, port: u16)
    requires
        waiter.wf(),
        waiter.next(event).1 == StepView::Finish(Err(RunErrorView::CouldNotConnect(port))),
    ensures
        waiter.phase is Pausing,
        event is Paused,
        waiter.attempts == waiter.max_waits,
        port == waiter.port,
{
}

/// A probe that is answered and decoded ends the wait in success at once:
/// no pause follows, and no further probe.
pub proof fn lemma_boot_success_is_immediate(waiter: BootWaiterView, event: Event)
    requires
        waiter.phase is Probing,
        waiter.probe.next(event).1 matches ExchangeStepView::Finish(Ok(_)),
    ensures
        waiter.next(event).1 == StepView::Finish(Ok(())),
        waiter.next(event).0.phase is Finished,
{
}

/// A probe that fails is followed by a pause of one second.
pub proof fn lemma_boot_failure_pauses(waiter: BootWaiterView, event: Event)
    requires
        waiter.phase is Probing,
        waiter.probe.next(event).1 matches ExchangeStepView::Finish(Err(_)),
    ensures
        waiter.next(event).1 == StepView::Perform(EffectView::Pause { seconds: 1 }),
        waiter.next(event).0.phase is Pausing,
        waiter.next(event).0.attempts == waiter.attempts,
{
}

/// Cancellation during a pause ends the wait as cancelled, whatever the
/// count of probes: it never ends as "could not connect".
pub proof fn lemma_boot_cancellation(waiter: BootWaiterView)
    requires
        waiter.phase is Pausing,
    ensures
        waiter.next(Event::Cancelled).1 == StepView::Finish(Err(RunErrorView::Cancelled)),
        waiter.next(Event::Cancelled).0.phase is Finished,
{
}

/// The wait for a node after a run of events, each the answer to the
/// effect asked for before it.
pub open spec fn waiter_after(port: u16, max_waits: u16, events: Seq<Event>) -> BootWaiterView
    decreases events.len(),
{
    if events.len() == 0 {
        BootWaiterView::start(port, max_waits).0
    } else {
        waiter_after(port, max_waits, events.drop_last()).next(events.last()).0
    }
}

/// The step that the wait takes after a run of events: its first step
/// where no event has come yet.
pub open spec fn boot_step_after(port: u16, max_waits: u16, events: Seq<Event>) -> StepView {
    if events.len() == 0 {
        BootWaiterView::start(port, max_waits).1
    } else {
        waiter_after(port, max_waits, events.drop_last()).next(events.last()).1
    }
}

/// How many probes the wait has asked to post, up to the step that it
/// takes after a run of events.
pub open spec fn probes_sent(port: u16, max_waits: u16, events: Seq<Event>) -> nat
    decreases events.len(),
{
    let sent: nat = if boot_step_after(port, max_waits, events) == StepView::Perform(
        probe_request(port).post(None),
    ) {
        1
    } else {
        0
    };
    if events.len() == 0 {
        sent
    } else {
        probes_sent(port, max_waits, events.drop_last()) + sent
    }
}

/// Whatever the node and the driver do, the wait sends no more probes than
/// it may. Where it ends as "could not connect", it names the port waited
/// for and has sent every probe that it may, no more and no fewer; where
/// it ends in success, it has sent at least one.
pub proof fn lemma_boot_probes_counted(port: u16, max_waits: u16, events: Seq<Event>)
    ensures
        probes_sent(port, max_waits, events) == waiter_after(port, max_waits, events).attempts,
        probes_sent(port, max_waits, events) <= max_waits,
        boot_step_after(port, max_waits, events) matches StepView::Finish(
            Err(RunErrorView::CouldNotConnect(p)),
        ) ==> p == port && probes_sent(port, max_waits, events) == max_waits,
        boot_step_after(port, max_waits, events) == StepView::Finish(Ok(())) ==> probes_sent(
            port,
            max_waits,
            events,
        ) >= 1,
        waiter_after(port, max_waits, events).wf(),
        waiter_after(port, max_waits, events).port == port,
        waiter_after(port, max_waits, events).max_waits == max_waits,
        !(waiter_after(port, max_waits, events).probe.phase is ReadingFile),
    decreases events.len(),
{
    if events.len() > 0 {
        lemma_boot_probes_counted(port, max_waits, events.drop_last());
    }
}

} // verus!
