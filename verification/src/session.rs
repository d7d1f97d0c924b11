//! The lifecycle of the service: discovery, the listening socket and the
//! background loop that takes transfers are started, restarted and torn down
//! together.
//!
//! Starting and stopping take time and can block, so neither is done here.
//! The coordinator decides: it names the next action, the caller performs it
//! under the bound that the action carries and reports what came of it, and
//! the coordinator names the next action, until the operation is done.

use crate::p2p::local_ip::Ipv4;
use crate::p2p::mdns::{
    device_views, fresh_discovery, heard_spec, hears, is_fresh, kept_ip, DeviceInfo,
    DeviceInfoView, MdnsDiscovery, MdnsDiscoveryView,
};
use crate::p2p::registry::{
    add_spec, lists, registry_of, registry_result, remove_spec, update_spec,
};
use crate::text::{chars_of, contains_text, decimal, occurs_in, push_decimal, same_text};
use crate::{Error, ErrorView};
use vstd::prelude::*;
use vstd::string::*;

verus! {

/// The longest that stopping a discovery service may take, in milliseconds.
pub const STOP_DISCOVERY_TIMEOUT_MS: u64 = 60_000;

/// The longest to wait for the listener slot before going on without it.
pub const CLEAR_LISTENER_TIMEOUT_MS: u64 = 5_000;

/// The longest to wait for the listener slot when a bind has just failed.
pub const FORCED_CLEAR_TIMEOUT_MS: u64 = 1_000;

/// How long the receive loop is given to see that the slot is empty.
pub const SETTLE_MS: u64 = 500;

/// How long the system is given to release a port before the second bind.
pub const PORT_RELEASE_MS: u64 = 1_000;

/// The name that the caller gave to a bound listening socket.
#[derive(Debug, Clone, Copy, PartialEq, Eq, Structural)]
pub struct ListenerHandle(pub u64);

/// The name that the caller gave to a running receive loop.
#[derive(Debug, Clone, Copy, PartialEq, Eq, Structural)]
pub struct TaskHandle(pub u64);

/// How an action that had a bound came out.
#[derive(Debug, Clone, Copy, PartialEq, Eq, Structural)]
pub enum Outcome {
    /// Done within the bound.
    Completed,
    /// Given up within the bound.
    Failed,
    /// Not done when the bound ran out.
    TimedOut,
}

/// Where the coordinator stands between two actions.
#[derive(Debug, Clone, Copy, PartialEq, Eq, Structural)]
pub enum Step {
    /// No operation is under way.
    Idle,
    /// Starting: the discovery service of the previous session is being stopped.
    StoppingOld,
    /// Starting: the listener slot is being cleared.
    Clearing,
    /// Starting: the receive loop is given time to see the empty slot.
    Settling,
    /// Starting: the new discovery service is being started.
    Discovering,
    /// Starting: the port is being bound.
    Binding,
    /// Starting: the port was in use, the listener slot is being cleared again.
    RetryClearing,
    /// Starting: the system is given time to release the port.
    RetryWaiting,
    /// Starting: the port is being bound a second and last time.
    Rebinding,
    /// Starting: the receive loop is being spawned.
    Spawning,
    /// Starting has failed: the new discovery service is being stopped again.
    Aborting,
    /// Stopping: the discovery service is being stopped.
    StopDiscovery,
    /// Stopping: the listener slot is being cleared.
    StopClearing,
    /// Stopping: the receive loop is given time to see the empty slot.
    StopSettling,
}

/// The state of the service as its users see it.
#[derive(Debug, Clone, Copy, PartialEq, Eq, Structural)]
pub enum Phase {
    Stopped,
    Starting,
    Running,
    Stopping,
}

/// What the caller is to do next.
#[derive(Debug, PartialEq, Eq)]
pub enum Action {
    /// Stop the loops of the discovery service, for at most `timeout_ms`.
    StopDiscovery { timeout_ms: u64 },
    /// Take the listener out of the shared slot, waiting for the slot at most
    /// `timeout_ms`.
    ClearListener { timeout_ms: u64 },
    /// Let `ms` milliseconds pass.
    Wait { ms: u64 },
    /// Find the local address and start the loops of a discovery service.
    StartDiscovery { port: u16 },
    /// Bind a listening socket to `port` on every interface.
    Bind { port: u16 },
    /// Put the listener into the shared slot and spawn the receive loop on it.
    SpawnReceiveLoop { listener: ListenerHandle },
    /// Nothing more: the operation is over, and this is how it ended.
    Done(Result<(), Error>),
}

/// The mathematical value of an [`Action`].
pub enum ActionView {
    StopDiscovery { timeout_ms: u64 },
    ClearListener { timeout_ms: u64 },
    Wait { ms: u64 },
    StartDiscovery { port: u16 },
    Bind { port: u16 },
    SpawnReceiveLoop { listener: ListenerHandle },
    Done(Result<(), ErrorView>),
}

impl View for Action {
    type V = ActionView;

    open spec fn view(&self) -> ActionView {
        match self {
            Action::StopDiscovery { timeout_ms } => ActionView::StopDiscovery {
                timeout_ms: *timeout_ms,
            },
            Action::ClearListener { timeout_ms } => ActionView::ClearListener {
                timeout_ms: *timeout_ms,
            },
            Action::Wait { ms } => ActionView::Wait { ms: *ms },
            Action::StartDiscovery { port } => ActionView::StartDiscovery { port: *port },
            Action::Bind { port } => ActionView::Bind { port: *port },
            Action::SpawnReceiveLoop { listener } => ActionView::SpawnReceiveLoop {
                listener: *listener,
            },
            Action::Done(Ok(_)) => ActionView::Done(Ok(())),
            Action::Done(Err(e)) => ActionView::Done(Err(e@)),
        }
    }
}

/// What came of the action that the caller performed.
#[derive(Debug, Clone, PartialEq, Eq)]
pub enum Event {
    /// The loops of a discovery service were told to stop.
    DiscoveryStopped(Outcome),
    /// The listener slot was asked for; `Completed` means it is empty now.
    ListenerCleared(Outcome),
    /// The time has passed.
    Waited,
    /// The loops of the new discovery service run; probing found this address.
    DiscoveryStarted(Option<Ipv4>),
    /// The new discovery service could not be started.
    DiscoveryFailed(String),
    /// The port is bound.
    Bound(ListenerHandle),
    /// The port could not be bound.
    BindFailed(Error),
    /// The receive loop runs.
    Spawned(TaskHandle),
}

/// The mathematical value of an [`Event`].
pub enum EventView {
    DiscoveryStopped(Outcome),
    ListenerCleared(Outcome),
    Waited,
    DiscoveryStarted(Option<Ipv4>),
    DiscoveryFailed(Seq<char>),
    Bound(ListenerHandle),
    BindFailed(ErrorView),
    Spawned(TaskHandle),
}

impl View for Event {
    type V = EventView;

    open spec fn view(&self) -> EventView {
        match self {
            Event::DiscoveryStopped(o) => EventView::DiscoveryStopped(*o),
            Event::ListenerCleared(o) => EventView::ListenerCleared(*o),
            Event::Waited => EventView::Waited,
            Event::DiscoveryStarted(ip) => EventView::DiscoveryStarted(*ip),
            Event::DiscoveryFailed(reason) => EventView::DiscoveryFailed(reason@),
            Event::Bound(h) => EventView::Bound(*h),
            Event::BindFailed(e) => EventView::BindFailed(e@),
            Event::Spawned(t) => EventView::Spawned(*t),
        }
    }
}

/// The value of a coordinator.
pub struct SessionView {
    pub step: Step,
    /// The port of the start that is under way.
    pub port: u16,
    /// The discovery service that is installed.
    pub discovery: Option<MdnsDiscoveryView>,
    /// The discovery service of the start that is under way, not yet installed.
    pub pending: Option<MdnsDiscoveryView>,
    /// What the shared listener slot holds.
    pub listener: Option<ListenerHandle>,
    /// The receive loop that was spawned last and has not been told to end.
    pub receive_task: Option<TaskHandle>,
    /// `desktop` or `mobile`: what new discovery services say of this device.
    pub device_type: Seq<char>,
    /// Why the first bind failed, while a second one is tried.
    pub first_error: Seq<char>,
    /// Why the start that is being aborted failed.
    pub failure: Seq<char>,
}

/// Whether the words of a failed bind say that the port is still in use.
pub open spec fn says_in_use(message: Seq<char>) -> bool {
    ||| occurs_in("address already in use"@, message)
    ||| occurs_in("端口"@, message)
    ||| occurs_in("Address already in use"@, message)
    ||| occurs_in("already bound"@, message)
}

pub open spec fn bind_failure_message(port: u16, reason: Seq<char>) -> Seq<char> {
    "Failed to start TCP listener on port "@ + decimal(port as nat) + ": "@ + reason
}

pub open spec fn retry_failure_message(second: Seq<char>, first: Seq<char>) -> Seq<char> {
    "重试绑定端口失败: "@ + second + " (原始错误: "@ + first + ")"@
}

pub open spec fn discovery_failure_message(reason: Seq<char>) -> Seq<char> {
    "Failed to start service: "@ + reason
}

pub open spec fn busy_message() -> Seq<char> {
    "Another operation is in progress"@
}

pub open spec fn idle_message() -> Seq<char> {
    "No operation is in progress"@
}

/// The discovery service that a start brings up: fresh, of this device's
/// kind, running, with the address that probing found.
pub open spec fn started_discovery(
    port: u16,
    device_type: Seq<char>,
    probed: Option<Ipv4>,
    host: Option<Seq<char>>,
    started: u64,
) -> MdnsDiscoveryView {
    MdnsDiscoveryView {
        device_type,
        running: true,
        local_ip: kept_ip(probed),
        ..fresh_discovery(port, host, started)
    }
}

/// The action that the coordinator waits to hear of.
pub open spec fn pending_action(s: SessionView) -> ActionView {
    match s.step {
        Step::Idle => ActionView::Done(Err(ErrorView::Protocol(idle_message()))),
        Step::StoppingOld => ActionView::StopDiscovery { timeout_ms: STOP_DISCOVERY_TIMEOUT_MS },
        Step::Clearing => ActionView::ClearListener { timeout_ms: CLEAR_LISTENER_TIMEOUT_MS },
        Step::Settling => ActionView::Wait { ms: SETTLE_MS },
        Step::Discovering => ActionView::StartDiscovery { port: s.port },
        Step::Binding => ActionView::Bind { port: s.port },
        Step::RetryClearing => ActionView::ClearListener { timeout_ms: FORCED_CLEAR_TIMEOUT_MS },
        Step::RetryWaiting => ActionView::Wait { ms: PORT_RELEASE_MS },
        Step::Rebinding => ActionView::Bind { port: s.port },
        Step::Spawning => match s.listener {
            Some(listener) => ActionView::SpawnReceiveLoop { listener },
            None => ActionView::Done(Err(ErrorView::Protocol(idle_message()))),
        },
        Step::Aborting => ActionView::StopDiscovery { timeout_ms: STOP_DISCOVERY_TIMEOUT_MS },
        Step::StopDiscovery => ActionView::StopDiscovery { timeout_ms: STOP_DISCOVERY_TIMEOUT_MS },
        Step::StopClearing => ActionView::ClearListener { timeout_ms: CLEAR_LISTENER_TIMEOUT_MS },
        Step::StopSettling => ActionView::Wait { ms: SETTLE_MS },
    }
}

/// A coordinator that has taken its next step: the step and the action that
/// goes with it.
pub open spec fn proceed(s: SessionView, step: Step) -> (SessionView, ActionView) {
    let next = SessionView { step, ..s };
    (next, pending_action(next))
}

/// A coordinator whose operation is over, and how it ended.
pub open spec fn conclude(s: SessionView, r: Result<(), ErrorView>) -> (SessionView, ActionView) {
    (SessionView { step: Step::Idle, ..s }, ActionView::Done(r))
}

/// What the listener slot holds after an attempt to clear it.
pub open spec fn slot_after(slot: Option<ListenerHandle>, o: Outcome) -> Option<ListenerHandle> {
    if o == Outcome::Completed {
        None
    } else {
        slot
    }
}

/// The receive loop that is still wanted after an attempt to clear the slot:
/// a loop that will find the slot empty is on its way out.
pub open spec fn task_after(task: Option<TaskHandle>, o: Outcome) -> Option<TaskHandle> {
    if o == Outcome::Completed {
        None
    } else {
        task
    }
}

/// What a request to start the service on `port` leads to.
///
/// With an operation under way the request is refused. Otherwise the
/// discovery service of the previous session, if there is one, is stopped
/// first; then the listener slot is cleared.
pub open spec fn start_spec(s: SessionView, port: u16) -> (SessionView, ActionView) {
    if s.step != Step::Idle {
        (s, ActionView::Done(Err(ErrorView::Protocol(busy_message()))))
    } else if s.discovery is Some {
        proceed(SessionView { port, ..s }, Step::StoppingOld)
    } else {
        proceed(SessionView { port, ..s }, Step::Clearing)
    }
}

/// What a request to stop the service leads to.
///
/// With an operation under way the request is refused. With no session there
/// is nothing to do and nothing changes. Otherwise the discovery service, if
/// there is one, is stopped first; then the listener slot is cleared.
pub open spec fn stop_spec(s: SessionView) -> (SessionView, ActionView) {
    if s.step != Step::Idle {
        (s, ActionView::Done(Err(ErrorView::Protocol(busy_message()))))
    } else if s.discovery is None && s.listener is None {
        (s, ActionView::Done(Ok(())))
    } else if s.discovery is Some {
        proceed(s, Step::StopDiscovery)
    } else {
        proceed(s, Step::StopClearing)
    }
}

/// What the report of an action leads to: the next state and the next action.
///
/// `host` and `started` are the name of the host and the time as they are
/// when a new discovery service is made.
///
/// A report that does not answer the action that the coordinator waits for
/// changes nothing, and the action is named again.
pub open spec fn event_spec(
    s: SessionView,
    e: EventView,
    host: Option<Seq<char>>,
    started: u64,
) -> (SessionView, ActionView) {
    match (s.step, e) {
        // Whatever came of stopping the old discovery service, it is let go.
        (Step::StoppingOld, EventView::DiscoveryStopped(_)) => proceed(
            SessionView { discovery: None, ..s },
            Step::Clearing,
        ),
        (Step::Clearing, EventView::ListenerCleared(o)) => proceed(
            SessionView {
                listener: slot_after(s.listener, o),
                receive_task: task_after(s.receive_task, o),
                ..s
            },
            Step::Settling,
        ),
        (Step::Settling, EventView::Waited) => proceed(s, Step::Discovering),
        (Step::Discovering, EventView::DiscoveryStarted(probed)) => proceed(
            SessionView {
                pending: Some(started_discovery(s.port, s.device_type, probed, host, started)),
                ..s
            },
            Step::Binding,
        ),
        (Step::Discovering, EventView::DiscoveryFailed(reason)) => conclude(
            SessionView { discovery: None, ..s },
            Err(ErrorView::Network(discovery_failure_message(reason))),
        ),
        (Step::Binding, EventView::Bound(listener)) => proceed(
            SessionView { discovery: s.pending, pending: None, listener: Some(listener), ..s },
            Step::Spawning,
        ),
        (Step::Binding, EventView::BindFailed(e)) => if says_in_use(
            bind_failure_message(s.port, e.display()),
        ) {
            proceed(SessionView { first_error: e.display(), ..s }, Step::RetryClearing)
        } else {
            proceed(
                SessionView { failure: bind_failure_message(s.port, e.display()), ..s },
                Step::Aborting,
            )
        },
        (Step::RetryClearing, EventView::ListenerCleared(o)) => if o == Outcome::Completed {
            proceed(SessionView { listener: None, receive_task: None, ..s }, Step::RetryWaiting)
        } else {
            proceed(s, Step::Rebinding)
        },
        (Step::RetryWaiting, EventView::Waited) => proceed(s, Step::Rebinding),
        (Step::Rebinding, EventView::Bound(listener)) => proceed(
            SessionView { discovery: s.pending, pending: None, listener: Some(listener), ..s },
            Step::Spawning,
        ),
        (Step::Rebinding, EventView::BindFailed(e)) => proceed(
            SessionView { failure: retry_failure_message(e.display(), s.first_error), ..s },
            Step::Aborting,
        ),
        (Step::Spawning, EventView::Spawned(task)) => conclude(
            SessionView { receive_task: Some(task), ..s },
            Ok(()),
        ),
        // A start that fails leaves no discovery service behind.
        (Step::Aborting, EventView::DiscoveryStopped(_)) => conclude(
            SessionView { discovery: None, pending: None, ..s },
            Err(ErrorView::Network(s.failure)),
        ),
        (Step::StopDiscovery, EventView::DiscoveryStopped(_)) => proceed(
            SessionView { discovery: None, ..s },
            Step::StopClearing,
        ),
        (Step::StopClearing, EventView::ListenerCleared(o)) => proceed(
            SessionView {
                listener: slot_after(s.listener, o),
                receive_task: task_after(s.receive_task, o),
                ..s
            },
            Step::StopSettling,
        ),
        (Step::StopSettling, EventView::Waited) => conclude(s, Ok(())),
        _ => (s, pending_action(s)),
    }
}

/// Whether a state and an action are what a report leads to, for some host
/// and time of start, given as a pair.
pub open spec fn answers(
    before: SessionView,
    e: EventView,
    after: SessionView,
    a: ActionView,
    identity: (Option<Seq<char>>, u64),
) -> bool {
    (after, a) == event_spec(before, e, identity.0, identity.1)
}

/// What holds of a coordinator at all times: a discovery service waits to be
/// installed exactly while a start is between discovery and installation, and
/// the receive loop is only ever spawned on a listener that is in the slot.
pub open spec fn coherent(s: SessionView) -> bool {
    &&& s.pending is Some <==> (s.step == Step::Binding || s.step == Step::RetryClearing || s.step
        == Step::RetryWaiting || s.step == Step::Rebinding || s.step == Step::Aborting)
    &&& s.step == Step::Spawning ==> s.listener is Some && s.discovery is Some
}

/// How the service stands for its users.
pub open spec fn phase_spec(s: SessionView) -> Phase {
    match s.step {
        Step::Idle => if s.discovery is Some && s.listener is Some {
            Phase::Running
        } else {
            Phase::Stopped
        },
        Step::StoppingOld | Step::StopDiscovery | Step::StopClearing | Step::StopSettling
        | Step::Aborting => Phase::Stopping,
        _ => Phase::Starting,
    }
}

/// Whether the words of a failed bind say that the port is still in use.
pub fn is_address_in_use(message: &str) -> (r: bool)
    ensures
        r == says_in_use(message@),
{
    let text = chars_of(message);
    let a = chars_of("address already in use");
    let b = chars_of("端口");
    let c = chars_of("Address already in use");
    let d = chars_of("already bound");
    contains_text(&text, &a) || contains_text(&text, &b) || contains_text(&text, &c)
        || contains_text(&text, &d)
}

/// The action that goes with a step.
fn action_for(step: Step, port: u16, listener: Option<ListenerHandle>) -> (a: Action)
    ensures
        forall|s: SessionView|
            s.step == step && s.port == port && s.listener == listener ==> a@ == #[trigger] pending_action(
                s,
            ),
{
    match step {
        Step::Idle => Action::Done(
            Err(Error::Protocol(String::from_str("No operation is in progress"))),
        ),
        Step::StoppingOld | Step::Aborting | Step::StopDiscovery => Action::StopDiscovery {
            timeout_ms: STOP_DISCOVERY_TIMEOUT_MS,
        },
        Step::Clearing | Step::StopClearing => Action::ClearListener {
            timeout_ms: CLEAR_LISTENER_TIMEOUT_MS,
        },
        Step::Settling | Step::StopSettling => Action::Wait { ms: SETTLE_MS },
        Step::Discovering => Action::StartDiscovery { port },
        Step::Binding | Step::Rebinding => Action::Bind { port },
        Step::RetryClearing => Action::ClearListener { timeout_ms: FORCED_CLEAR_TIMEOUT_MS },
        Step::RetryWaiting => Action::Wait { ms: PORT_RELEASE_MS },
        Step::Spawning => match listener {
            Some(listener) => Action::SpawnReceiveLoop { listener },
            None => Action::Done(
                Err(Error::Protocol(String::from_str("No operation is in progress"))),
            ),
        },
    }
}

/// The value of a discovery service that may be missing.
pub open spec fn discovery_view(d: Option<MdnsDiscovery>) -> Option<MdnsDiscoveryView> {
    match d {
        Some(d) => Some(d@),
        None => None,
    }
}

/// A coordinator of a device of the given kind, with no session.
pub open spec fn idle_session(device_type: Seq<char>) -> SessionView {
    SessionView {
        step: Step::Idle,
        port: 0,
        discovery: None,
        pending: None,
        listener: None,
        receive_task: None,
        device_type,
        first_error: Seq::empty(),
        failure: Seq::empty(),
    }
}

/// The port of a discovery service that only holds devices put in by hand.
pub open spec fn default_port(device_type: Seq<char>) -> u16 {
    if device_type == "mobile"@ {
        8081
    } else {
        8080
    }
}

/// The discovery service that devices are put into: the installed one, or,
/// with none installed, a fresh one of this device's kind that does not run.
pub open spec fn device_store(
    s: SessionView,
    identity: (Option<Seq<char>>, u64),
) -> MdnsDiscoveryView {
    match s.discovery {
        Some(d) => d,
        None => MdnsDiscoveryView {
            device_type: s.device_type,
            ..fresh_discovery(default_port(s.device_type), identity.0, identity.1)
        },
    }
}

/// A coordinator after a device was put in by hand.
pub open spec fn with_device(
    s: SessionView,
    d: DeviceInfoView,
    identity: (Option<Seq<char>>, u64),
) -> SessionView {
    let store = device_store(s, identity);
    SessionView {
        discovery: Some(MdnsDiscoveryView { devices: add_spec(store.devices, d), ..store }),
        ..s
    }
}

pub open spec fn not_started_message() -> Seq<char> {
    "Service not started"@
}

/// The devices that the coordinator knows: those of the installed discovery
/// service, none without one.
pub open spec fn known_devices(s: SessionView) -> Map<Seq<char>, DeviceInfoView> {
    match s.discovery {
        Some(d) => d.devices,
        None => Map::empty(),
    }
}

/// What taking a device out of the coordinator's registry gives: the registry
/// without it, or the reason why not.
pub open spec fn remove_known(s: SessionView, id: Seq<char>) -> Result<
    Map<Seq<char>, DeviceInfoView>,
    ErrorView,
> {
    match s.discovery {
        Some(d) => remove_spec(d.devices, id),
        None => Err(ErrorView::NotFound(not_started_message())),
    }
}

/// What describing a device anew gives: the registry with the new
/// description, or the reason why not.
pub open spec fn update_known(s: SessionView, d: DeviceInfoView) -> Result<
    Map<Seq<char>, DeviceInfoView>,
    ErrorView,
> {
    match s.discovery {
        Some(x) => update_spec(x.devices, d),
        None => Err(ErrorView::NotFound(not_started_message())),
    }
}

/// A coordinator whose installed discovery service holds the devices
/// `devices`.
pub open spec fn with_devices(s: SessionView, devices: Map<Seq<char>, DeviceInfoView>) -> SessionView {
    match s.discovery {
        Some(d) => SessionView { discovery: Some(MdnsDiscoveryView { devices, ..d }), ..s },
        None => s,
    }
}

/// The parts of a coordinator.
struct Parts {
    step: Step,
    port: u16,
    discovery: Option<MdnsDiscovery>,
    pending: Option<MdnsDiscovery>,
    listener: Option<ListenerHandle>,
    receive_task: Option<TaskHandle>,
    device_type: String,
    first_error: String,
    failure: String,
}

impl View for Parts {
    type V = SessionView;

    closed spec fn view(&self) -> SessionView {
        SessionView {
            step: self.step,
            port: self.port,
            discovery: discovery_view(self.discovery),
            pending: discovery_view(self.pending),
            listener: self.listener,
            receive_task: self.receive_task,
            device_type: self.device_type@,
            first_error: self.first_error@,
            failure: self.failure@,
        }
    }
}

impl Parts {
    /// The parts of a coordinator with no session.
    fn idle(device_type: &str) -> (p: Parts)
        ensures
            p@ == idle_session(device_type@),
    {
        Parts {
            step: Step::Idle,
            port: 0,
            discovery: None,
            pending: None,
            listener: None,
            receive_task: None,
            device_type: String::from_str(device_type),
            first_error: String::new(),
            failure: String::new(),
        }
    }

    /// The parts at the next step, with the action that goes with the step.
    fn proceed(self, step: Step) -> (r: (Parts, Action))
        ensures
            (r.0@, r.1@) == proceed(self@, step),
    {
        let mut p = self;
        p.step = step;
        let a = action_for(p.step, p.port, p.listener);
        (p, a)
    }

    /// The parts with the operation over, and how it ended.
    fn conclude(self, result: Result<(), Error>) -> (r: (Parts, Action))
        ensures
            (r.0@, r.1@) == conclude(
                self@,
                match result {
                    Ok(_) => Ok(()),
                    Err(e) => Err(e@),
                },
            ),
    {
        let mut p = self;
        p.step = Step::Idle;
        (p, Action::Done(result))
    }

    /// The parts as they are, with the action that is waited for.
    fn unmoved(self) -> (r: (Parts, Action))
        ensures
            (r.0@, r.1@) == (self@, pending_action(self@)),
    {
        let a = action_for(self.step, self.port, self.listener);
        (self, a)
    }

    fn discovery_stopped(self, o: Outcome) -> (r: (Parts, Action))
        ensures
            answers(self@, EventView::DiscoveryStopped(o), r.0@, r.1@, (None, 0)),
    {
        let mut p = self;
        if p.step == Step::StoppingOld {
            p.discovery = None;
            p.proceed(Step::Clearing)
        } else if p.step == Step::StopDiscovery {
            p.discovery = None;
            p.proceed(Step::StopClearing)
        } else if p.step == Step::Aborting {
            p.discovery = None;
            p.pending = None;
            let failure = p.failure.clone();
            p.conclude(Err(Error::Network(failure)))
        } else {
            p.unmoved()
        }
    }

    fn listener_cleared(self, o: Outcome) -> (r: (Parts, Action))
        ensures
            answers(self@, EventView::ListenerCleared(o), r.0@, r.1@, (None, 0)),
    {
        let mut p = self;
        let emptied = o == Outcome::Completed;
        if p.step == Step::Clearing || p.step == Step::StopClearing {
            if emptied {
                p.listener = None;
                p.receive_task = None;
            }
            if p.step == Step::Clearing {
                p.proceed(Step::Settling)
            } else {
                p.proceed(Step::StopSettling)
            }
        } else if p.step == Step::RetryClearing {
            if emptied {
                p.listener = None;
                p.receive_task = None;
                p.proceed(Step::RetryWaiting)
            } else {
                p.proceed(Step::Rebinding)
            }
        } else {
            p.unmoved()
        }
    }

    fn waited(self) -> (r: (Parts, Action))
        ensures
            answers(self@, EventView::Waited, r.0@, r.1@, (None, 0)),
    {
        if self.step == Step::Settling {
            self.proceed(Step::Discovering)
        } else if self.step == Step::RetryWaiting {
            self.proceed(Step::Rebinding)
        } else if self.step == Step::StopSettling {
            self.conclude(Ok(()))
        } else {
            self.unmoved()
        }
    }

    fn discovery_started(self, probed: Option<Ipv4>) -> (r: (Parts, Action))
        ensures
            exists|identity: (Option<Seq<char>>, u64)|
                answers(self@, EventView::DiscoveryStarted(probed), r.0@, r.1@, identity),
    {
        let ghost before = self@;
        let mut p = self;
        if p.step == Step::Discovering {
            let mut d = MdnsDiscovery::new(p.port);
            let ghost identity = choose|identity: (Option<Seq<char>>, u64)|
                is_fresh(d@, p.port, identity);
            d.set_device_type(p.device_type.clone());
            let _ = d.start(probed);
            p.pending = Some(d);
            let r = p.proceed(Step::Binding);
            assert(answers(before, EventView::DiscoveryStarted(probed), r.0@, r.1@, identity));
            r
        } else {
            let r = p.unmoved();
            assert(answers(before, EventView::DiscoveryStarted(probed), r.0@, r.1@, (None, 0)));
            r
        }
    }

    fn discovery_failed(self, reason: String) -> (r: (Parts, Action))
        ensures
            answers(self@, EventView::DiscoveryFailed(reason@), r.0@, r.1@, (None, 0)),
    {
        if self.step == Step::Discovering {
            let mut m = String::from_str("Failed to start service: ");
            m.append(reason.as_str());
            let mut p = self;
            p.discovery = None;
            p.conclude(Err(Error::Network(m)))
        } else {
            self.unmoved()
        }
    }

    fn bound(self, handle: ListenerHandle) -> (r: (Parts, Action))
        ensures
            answers(self@, EventView::Bound(handle), r.0@, r.1@, (None, 0)),
    {
        let mut p = self;
        if p.step == Step::Binding || p.step == Step::Rebinding {
            p.discovery = p.pending;
            p.pending = None;
            p.listener = Some(handle);
            p.proceed(Step::Spawning)
        } else {
            p.unmoved()
        }
    }

    fn bind_failed(self, e: Error) -> (r: (Parts, Action))
        ensures
            answers(self@, EventView::BindFailed(e@), r.0@, r.1@, (None, 0)),
    {
        let mut p = self;
        if p.step == Step::Binding {
            let reason = e.to_string();
            let mut m = String::from_str("Failed to start TCP listener on port ");
            push_decimal(&mut m, p.port as u64);
            m.append(": ");
            m.append(reason.as_str());
            if is_address_in_use(m.as_str()) {
                p.first_error = reason;
                p.proceed(Step::RetryClearing)
            } else {
                p.failure = m;
                p.proceed(Step::Aborting)
            }
        } else if p.step == Step::Rebinding {
            let reason = e.to_string();
            let mut m = String::from_str("重试绑定端口失败: ");
            m.append(reason.as_str());
            m.append(" (原始错误: ");
            m.append(p.first_error.as_str());
            m.append(")");
            p.failure = m;
            p.proceed(Step::Aborting)
        } else {
            p.unmoved()
        }
    }

    fn spawned(self, task: TaskHandle) -> (r: (Parts, Action))
        ensures
            answers(self@, EventView::Spawned(task), r.0@, r.1@, (None, 0)),
    {
        let mut p = self;
        if p.step == Step::Spawning {
            p.receive_task = Some(task);
            p.conclude(Ok(()))
        } else {
            p.unmoved()
        }
    }
}

/// Owns the session of this process: at most one discovery service, one
/// listener and one receive loop at a time.
pub struct SessionManager {
    parts: Parts,
}

impl View for SessionManager {
    type V = SessionView;

    closed spec fn view(&self) -> SessionView {
        self.parts@
    }
}

impl SessionManager {
    #[verifier::type_invariant]
    spec fn well_formed(self) -> bool {
        coherent(self@)
    }

    /// A coordinator for a device of the kind `device_type` (`desktop` or
    /// `mobile`), with no session.
    pub fn new(device_type: &str) -> (m: SessionManager)
        ensures
            m@ == idle_session(device_type@),
    {
        SessionManager { parts: Parts::idle(device_type) }
    }

    /// Hands out the coordinator's parts and leaves a coordinator with no
    /// session in their place.
    fn take(&mut self) -> (p: Parts)
        ensures
            p@ == old(self)@,
            coherent(p@),
    {
        proof {
            use_type_invariant(&*self);
        }
        let mut taken = SessionManager::new("");
        core::mem::swap(self, &mut taken);
        taken.parts
    }

    /// Makes the coordinator of the given parts.
    fn put(&mut self, p: Parts)
        requires
            coherent(p@),
        ensures
            final(self)@ == p@,
    {
        *self = SessionManager { parts: p };
    }

    /// How the service stands.
    pub fn phase(&self) -> (p: Phase)
        ensures
            p == phase_spec(self@),
    {
        match self.parts.step {
            Step::Idle => {
                if self.parts.discovery.is_some() && self.parts.listener.is_some() {
                    Phase::Running
                } else {
                    Phase::Stopped
                }
            },
            Step::StoppingOld | Step::StopDiscovery | Step::StopClearing | Step::StopSettling
            | Step::Aborting => Phase::Stopping,
            _ => Phase::Starting,
        }
    }

    /// Where the coordinator stands between two actions.
    pub fn step(&self) -> (s: Step)
        ensures
            s == self@.step,
    {
        self.parts.step
    }

    /// What the shared listener slot holds.
    pub fn listener(&self) -> (l: Option<ListenerHandle>)
        ensures
            l == self@.listener,
    {
        self.parts.listener
    }

    /// The receive loop that was spawned last and has not been told to end.
    pub fn receive_task(&self) -> (t: Option<TaskHandle>)
        ensures
            t == self@.receive_task,
    {
        self.parts.receive_task
    }

    /// Whether a discovery service is installed.
    pub fn has_discovery(&self) -> (r: bool)
        ensures
            r == self@.discovery is Some,
    {
        self.parts.discovery.is_some()
    }

    /// The action that the coordinator waits to hear of.
    pub fn awaited(&self) -> (a: Action)
        ensures
            a@ == pending_action(self@),
    {
        action_for(self.parts.step, self.parts.port, self.parts.listener)
    }

    /// Asks for the service to be started on `port`, in place of the session
    /// that there may be. Names the first action.
    pub fn begin_start(&mut self, port: u16) -> (a: Action)
        ensures
            (final(self)@, a@) == start_spec(old(self)@, port),
    {
        if self.parts.step != Step::Idle {
            return Action::Done(
                Err(Error::Protocol(String::from_str("Another operation is in progress"))),
            );
        }
        let mut p = self.take();
        p.port = port;
        let (next, a) = if p.discovery.is_some() {
            p.proceed(Step::StoppingOld)
        } else {
            p.proceed(Step::Clearing)
        };
        self.put(next);
        a
    }

    /// Asks for the service to be stopped. Names the first action; with no
    /// session there is none, and the answer is that the stop is done.
    pub fn begin_stop(&mut self) -> (a: Action)
        ensures
            (final(self)@, a@) == stop_spec(old(self)@),
    {
        if self.parts.step != Step::Idle {
            return Action::Done(
                Err(Error::Protocol(String::from_str("Another operation is in progress"))),
            );
        }
        if self.parts.discovery.is_none() && self.parts.listener.is_none() {
            return Action::Done(Ok(()));
        }
        let p = self.take();
        let (next, a) = if p.discovery.is_some() {
            p.proceed(Step::StopDiscovery)
        } else {
            p.proceed(Step::StopClearing)
        };
        self.put(next);
        a
    }

    /// Takes the report of the action that was named last and names the next
    /// one.
    pub fn on_event(&mut self, event: Event) -> (a: Action)
        ensures
            exists|identity: (Option<Seq<char>>, u64)|
                answers(old(self)@, event@, final(self)@, a@, identity),
    {
        let ghost before = self@;
        let ghost incoming = event@;
        let p = self.take();
        let (next, a) = match event {
            Event::DiscoveryStopped(o) => {
                let r = p.discovery_stopped(o);
                assert(answers(before, incoming, r.0@, r.1@, (None, 0)));
                r
            },
            Event::ListenerCleared(o) => {
                let r = p.listener_cleared(o);
                assert(answers(before, incoming, r.0@, r.1@, (None, 0)));
                r
            },
            Event::Waited => {
                let r = p.waited();
                assert(answers(before, incoming, r.0@, r.1@, (None, 0)));
                r
            },
            Event::DiscoveryStarted(probed) => {
                let r = p.discovery_started(probed);
                assert(exists|identity: (Option<Seq<char>>, u64)|
                    answers(before, incoming, r.0@, r.1@, identity));
                r
            },
            Event::DiscoveryFailed(reason) => {
                let r = p.discovery_failed(reason);
                assert(answers(before, incoming, r.0@, r.1@, (None, 0)));
                r
            },
            Event::Bound(handle) => {
                let r = p.bound(handle);
                assert(answers(before, incoming, r.0@, r.1@, (None, 0)));
                r
            },
            Event::BindFailed(e) => {
                let r = p.bind_failed(e);
                assert(answers(before, incoming, r.0@, r.1@, (None, 0)));
                r
            },
            Event::Spawned(task) => {
                let r = p.spawned(task);
                assert(answers(before, incoming, r.0@, r.1@, (None, 0)));
                r
            },
        };
        proof {
            let identity = choose|identity: (Option<Seq<char>>, u64)|
                answers(before, incoming, next@, a@, identity);
            crate::session_laws::lemma_reports_keep_coherence(
                before,
                incoming,
                identity.0,
                identity.1,
            );
        }
        self.put(next);
        a
    }

    /// A copy of every device that the coordinator knows, in no particular
    /// order.
    pub fn get_devices(&self) -> (snapshot: Vec<DeviceInfo>)
        ensures
            lists(device_views(snapshot@), known_devices(self@)),
    {
        match &self.parts.discovery {
            Some(d) => d.get_devices(),
            None => {
                let snapshot: Vec<DeviceInfo> = Vec::new();
                assert(registry_of(device_views(snapshot@)) =~= Map::<
                    Seq<char>,
                    DeviceInfoView,
                >::empty());
                snapshot
            },
        }
    }

    /// The id of this device, once a discovery service is installed.
    pub fn get_device_id(&self) -> (r: Result<String, Error>)
        ensures
            match r {
                Ok(id) => self@.discovery is Some && id@ == self@.discovery->0.device_id,
                Err(e) => self@.discovery is None && e@ == ErrorView::NotFound(
                    not_started_message(),
                ),
            },
    {
        match &self.parts.discovery {
            Some(d) => Ok(String::from_str(d.device_id())),
            None => Err(Error::NotFound(String::from_str("Service not started"))),
        }
    }

    /// The address that the installed discovery service has settled on.
    pub fn known_local_ip(&self) -> (ip: Option<String>)
        ensures
            match ip {
                Some(text) => self@.discovery is Some && self@.discovery->0.local_ip == Some(
                    text@,
                ),
                None => self@.discovery is None || self@.discovery->0.local_ip is None,
            },
    {
        match &self.parts.discovery {
            Some(d) => d.get_local_ip(),
            None => None,
        }
    }

    /// The record that the installed discovery service sends to the multicast
    /// group, while there is one.
    pub fn announcement(&self) -> (text: Option<String>)
        ensures
            match text {
                Some(t) => self@.discovery is Some && t@ == crate::p2p::announce::announcement_text(
                    crate::p2p::announce::AnnouncementView {
                        id: self@.discovery->0.device_id,
                        name: self@.discovery->0.device_name,
                        device_type: self@.discovery->0.device_type,
                        port: self@.discovery->0.port,
                    },
                ),
                None => self@.discovery is None,
            },
    {
        match &self.parts.discovery {
            Some(d) => Some(d.announcement()),
            None => None,
        }
    }

    /// Puts a device into the registry by hand. Without a discovery service
    /// one is made to hold the device; it does not run.
    pub fn add_device(&mut self, device: DeviceInfo)
        ensures
            exists|identity: (Option<Seq<char>>, u64)|
                final(self)@ == with_device(old(self)@, device@, identity),
    {
        let ghost before = self@;
        let mut p = self.take();
        let ghost mut identity: (Option<Seq<char>>, u64) = (None, 0);
        let mut store = match p.discovery {
            Some(d) => d,
            None => {
                let fallback: u16 = if same_text(p.device_type.as_str(), "mobile") {
                    8081
                } else {
                    8080
                };
                let mut d = MdnsDiscovery::new(fallback);
                proof {
                    identity = choose|identity: (Option<Seq<char>>, u64)|
                        is_fresh(d@, fallback, identity);
                }
                d.set_device_type(p.device_type.clone());
                d
            },
        };
        assert(store@ == device_store(before, identity));
        store.add_device(device);
        p.discovery = Some(store);
        self.put(p);
        assert(self@ == with_device(before, device@, identity));
    }

    /// Takes the device `id` out of the registry; fails where it is not
    /// there, or where there is no discovery service.
    pub fn remove_device(&mut self, id: &str) -> (r: Result<(), Error>)
        ensures
            registry_result(known_devices(final(self)@), r) == remove_known(old(self)@, id@),
            final(self)@ == with_devices(old(self)@, known_devices(final(self)@)),
            r is Err ==> final(self)@ == old(self)@,
    {
        let mut p = self.take();
        let r = match p.discovery {
            Some(mut d) => {
                let r = d.remove_device(id);
                p.discovery = Some(d);
                r
            },
            None => {
                p.discovery = None;
                Err(Error::NotFound(String::from_str("Service not started")))
            },
        };
        self.put(p);
        r
    }

    /// Describes the device `device.id` anew; fails where it is not there, or
    /// where there is no discovery service.
    pub fn update_device(&mut self, device: DeviceInfo) -> (r: Result<(), Error>)
        ensures
            registry_result(known_devices(final(self)@), r) == update_known(old(self)@, device@),
            final(self)@ == with_devices(old(self)@, known_devices(final(self)@)),
            r is Err ==> final(self)@ == old(self)@,
    {
        let mut p = self.take();
        let r = match p.discovery {
            Some(mut d) => {
                let r = d.update_device(device);
                p.discovery = Some(d);
                r
            },
            None => {
                p.discovery = None;
                Err(Error::NotFound(String::from_str("Service not started")))
            },
        };
        self.put(p);
        r
    }

    /// Takes a packet that came from `source` on the multicast group to the
    /// installed discovery service. Says whether the packet announced a peer.
    pub fn on_announcement(&mut self, packet: &str, source: &str) -> (heard: bool)
        ensures
            match old(self)@.discovery {
                Some(d) => final(self)@ == (SessionView {
                    discovery: Some(heard_spec(d, packet@, source@)),
                    ..old(self)@
                }) && heard == hears(d, packet@),
                None => final(self)@ == old(self)@ && !heard,
            },
    {
        let mut p = self.take();
        let heard = match p.discovery {
            Some(mut d) => {
                let heard = d.on_announcement(packet, source);
                p.discovery = Some(d);
                heard
            },
            None => {
                p.discovery = None;
                false
            },
        };
        self.put(p);
        heard
    }
}

} // verus!
