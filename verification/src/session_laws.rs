//! What holds of every run of the lifecycle coordinator.

use crate::p2p::local_ip::Ipv4;
use crate::session::{
    bind_failure_message, coherent, event_spec, pending_action, phase_spec,
    retry_failure_message, says_in_use, slot_after, start_spec, started_discovery, stop_spec,
    task_after, ActionView, EventView, ListenerHandle, Outcome, Phase, SessionView, Step,
    TaskHandle, CLEAR_LISTENER_TIMEOUT_MS, SETTLE_MS, STOP_DISCOVERY_TIMEOUT_MS,
};
use crate::ErrorView;
use vstd::prelude::*;

verus! {

/// The state after a row of reports, each answering the action named before
/// it, and the action named last.
pub open spec fn run(
    s: SessionView,
    first: ActionView,
    events: Seq<EventView>,
    host: Option<Seq<char>>,
    started: u64,
) -> (SessionView, ActionView)
    decreases events.len(),
{
    if events.len() == 0 {
        (s, first)
    } else {
        let before = run(s, first, events.drop_last(), host, started);
        event_spec(before.0, events.last(), host, started)
    }
}

/// The longest that an action may take, in milliseconds, where it has a bound.
pub open spec fn bound_ms(a: ActionView) -> nat {
    match a {
        ActionView::StopDiscovery { timeout_ms } => timeout_ms as nat,
        ActionView::ClearListener { timeout_ms } => timeout_ms as nat,
        ActionView::Wait { ms } => ms as nat,
        _ => 0,
    }
}

/// Stopping and starting keep the coordinator coherent.
pub proof fn lemma_requests_keep_coherence(s: SessionView, port: u16)
    requires
        coherent(s),
    ensures
        coherent(start_spec(s, port).0),
        coherent(stop_spec(s).0),
{
}

/// Every report keeps the coordinator coherent.
pub proof fn lemma_reports_keep_coherence(
    s: SessionView,
    e: EventView,
    host: Option<Seq<char>>,
    started: u64,
)
    requires
        coherent(s),
    ensures
        coherent(event_spec(s, e, host, started).0),
{
}

/// A request to stop with no session succeeds at once and changes nothing.
pub proof fn lemma_stop_without_session(s: SessionView)
    requires
        s.step == Step::Idle,
        s.discovery is None,
        s.listener is None,
    ensures
        stop_spec(s) == (s, ActionView::Done(Ok(()))),
{
}

/// The reports of a start in which nothing fails: the old discovery service
/// stopped one way or another (where there was one), the slot cleared or not,
/// the pause over, discovery started, the port bound, the loop spawned.
pub open spec fn smooth_start(
    had_discovery: bool,
    stopped: Outcome,
    cleared: Outcome,
    probed: Option<Ipv4>,
    listener: ListenerHandle,
    task: TaskHandle,
) -> Seq<EventView> {
    let rest = seq![
        EventView::ListenerCleared(cleared),
        EventView::Waited,
        EventView::DiscoveryStarted(probed),
        EventView::Bound(listener),
        EventView::Spawned(task),
    ];
    if had_discovery {
        seq![EventView::DiscoveryStopped(stopped)] + rest
    } else {
        rest
    }
}

/// A start in which nothing fails replaces whatever session there was, however
/// the teardown of the old session went: afterwards the slot holds the new
/// listener and no other, the discovery service is the new one, nothing is
/// left half installed, and the service runs. On the way, the old discovery
/// service is told to stop before anything else happens.
#[verifier::rlimit(40)]
pub proof fn lemma_start_replaces_session(
    s: SessionView,
    port: u16,
    stopped: Outcome,
    cleared: Outcome,
    probed: Option<Ipv4>,
    listener: ListenerHandle,
    task: TaskHandle,
    host: Option<Seq<char>>,
    started: u64,
)
    requires
        coherent(s),
        s.step == Step::Idle,
    ensures
        s.discovery is Some ==> start_spec(s, port).1 == (ActionView::StopDiscovery {
            timeout_ms: STOP_DISCOVERY_TIMEOUT_MS,
        }),
        ({
            let begun = start_spec(s, port);
            let end = run(
                begun.0,
                begun.1,
                smooth_start(s.discovery is Some, stopped, cleared, probed, listener, task),
                host,
                started,
            );
            &&& end.1 == ActionView::Done(Ok(()))
            &&& end.0.step == Step::Idle
            &&& end.0.listener == Some(listener)
            &&& end.0.receive_task == Some(task)
            &&& end.0.discovery == Some(
                started_discovery(port, s.device_type, probed, host, started),
            )
            &&& end.0.pending is None
            &&& phase_spec(end.0) == Phase::Running
        }),
{
    let begun = start_spec(s, port);
    let events = smooth_start(s.discovery is Some, stopped, cleared, probed, listener, task);
    assert(run(begun.0, begun.1, events.take(0), host, started) == begun);
    let r1 = run(begun.0, begun.1, events.take(1), host, started);
    assert(events.take(1).drop_last() =~= events.take(0));
    let r2 = run(begun.0, begun.1, events.take(2), host, started);
    assert(events.take(2).drop_last() =~= events.take(1));
    let r3 = run(begun.0, begun.1, events.take(3), host, started);
    assert(events.take(3).drop_last() =~= events.take(2));
    let r4 = run(begun.0, begun.1, events.take(4), host, started);
    assert(events.take(4).drop_last() =~= events.take(3));
    let r5 = run(begun.0, begun.1, events.take(5), host, started);
    assert(events.take(5).drop_last() =~= events.take(4));
    if s.discovery is Some {
        assert(r1.0.step == Step::Clearing);
        assert(r2.0.step == Step::Settling);
        assert(r3.0.step == Step::Discovering);
        assert(r4.0.step == Step::Binding);
        assert(r5.0.step == Step::Spawning);
        let r6 = run(begun.0, begun.1, events.take(6), host, started);
        assert(events.take(6).drop_last() =~= events.take(5));
        assert(events.take(6) =~= events);
    } else {
        assert(r1.0.step == Step::Settling);
        assert(r2.0.step == Step::Discovering);
        assert(r3.0.step == Step::Binding);
        assert(r4.0.step == Step::Spawning);
        assert(events.take(5) =~= events);
    }
}

/// The reports of a stop: the discovery service stopped one way or another
/// (where there was one), the slot cleared or not, the pause over.
pub open spec fn stop_reports(had_discovery: bool, stopped: Outcome, cleared: Outcome) -> Seq<
    EventView,
> {
    let rest = seq![EventView::ListenerCleared(cleared), EventView::Waited];
    if had_discovery {
        seq![EventView::DiscoveryStopped(stopped)] + rest
    } else {
        rest
    }
}

/// The bounds of the actions of a stop, added up.
pub open spec fn stop_ceiling_ms() -> nat {
    (STOP_DISCOVERY_TIMEOUT_MS + CLEAR_LISTENER_TIMEOUT_MS + SETTLE_MS) as nat
}

/// A stop ends well whatever comes of its actions, even where the slot cannot
/// be had because the receive loop sits in `accept`: every action has a bound,
/// the bounds add up to no more than the ceiling, and afterwards no discovery
/// service is installed and no operation is under way. The slot is empty
/// where it could be cleared and as before where it could not.
pub proof fn lemma_stop_is_bounded(s: SessionView, stopped: Outcome, cleared: Outcome)
    requires
        coherent(s),
        s.step == Step::Idle,
        s.discovery is Some || s.listener is Some,
    ensures
        ({
            let begun = stop_spec(s);
            let events = stop_reports(s.discovery is Some, stopped, cleared);
            let end = run(begun.0, begun.1, events, None, 0);
            &&& end.1 == ActionView::Done(Ok(()))
            &&& end.0.step == Step::Idle
            &&& end.0.discovery is None
            &&& end.0.listener == slot_after(s.listener, cleared)
            &&& end.0.receive_task == task_after(s.receive_task, cleared)
            &&& coherent(end.0)
            &&& s.discovery is Some ==> bound_ms(begun.1) + bound_ms(
                run(begun.0, begun.1, events.take(1), None, 0).1,
            ) + bound_ms(run(begun.0, begun.1, events.take(2), None, 0).1) <= stop_ceiling_ms()
            &&& s.discovery is None ==> bound_ms(begun.1) + bound_ms(
                run(begun.0, begun.1, events.take(1), None, 0).1,
            ) <= stop_ceiling_ms()
        }),
{
    let begun = stop_spec(s);
    let events = stop_reports(s.discovery is Some, stopped, cleared);
    assert(run(begun.0, begun.1, events.take(0), None, 0) == begun);
    let r1 = run(begun.0, begun.1, events.take(1), None, 0);
    assert(events.take(1).drop_last() =~= events.take(0));
    let r2 = run(begun.0, begun.1, events.take(2), None, 0);
    assert(events.take(2).drop_last() =~= events.take(1));
    if s.discovery is Some {
        assert(r1.0.step == Step::StopClearing);
        assert(r2.0.step == Step::StopSettling);
        let r3 = run(begun.0, begun.1, events.take(3), None, 0);
        assert(events.take(3).drop_last() =~= events.take(2));
        assert(events.take(3) =~= events);
    } else {
        assert(r1.0.step == Step::StopSettling);
        assert(events.take(2) =~= events);
    }
}

/// A port that is still in use is tried once more, and a second failure ends
/// the start: the discovery service that was started for it is stopped again,
/// and nothing of the failed start stays installed. `s` is a coordinator that
/// has just been told that the first bind failed.
pub proof fn lemma_second_bind_failure_is_final(
    s: SessionView,
    first: ErrorView,
    cleared: Outcome,
    second: ErrorView,
    stopped: Outcome,
)
    requires
        coherent(s),
        s.step == Step::Binding,
        says_in_use(bind_failure_message(s.port, first.display())),
    ensures
        ({
            let retry = event_spec(s, EventView::BindFailed(first), None, 0);
            let after_clear = event_spec(retry.0, EventView::ListenerCleared(cleared), None, 0);
            let rebinding = if cleared == Outcome::Completed {
                event_spec(after_clear.0, EventView::Waited, None, 0)
            } else {
                after_clear
            };
            let aborting = event_spec(rebinding.0, EventView::BindFailed(second), None, 0);
            let end = event_spec(aborting.0, EventView::DiscoveryStopped(stopped), None, 0);
            &&& retry.1 == pending_action(retry.0)
            &&& retry.0.step == Step::RetryClearing
            &&& rebinding.1 == (ActionView::Bind { port: s.port })
            &&& aborting.1 == (ActionView::StopDiscovery { timeout_ms: STOP_DISCOVERY_TIMEOUT_MS })
            &&& end.1 == ActionView::Done(
                Err(
                    ErrorView::Network(retry_failure_message(second.display(), first.display())),
                ),
            )
            &&& end.0.step == Step::Idle
            &&& end.0.pending is None
            &&& end.0.discovery is None
            &&& phase_spec(end.0) == Phase::Stopped
        }),
{
}

/// A bind that fails for another reason than a port in use ends the start at
/// once, in the same way: the new discovery service is stopped again and
/// nothing stays installed.
pub proof fn lemma_other_bind_failure_is_final(s: SessionView, failed: ErrorView, stopped: Outcome)
    requires
        coherent(s),
        s.step == Step::Binding,
        !says_in_use(bind_failure_message(s.port, failed.display())),
    ensures
        ({
            let aborting = event_spec(s, EventView::BindFailed(failed), None, 0);
            let end = event_spec(aborting.0, EventView::DiscoveryStopped(stopped), None, 0);
            &&& aborting.1 == (ActionView::StopDiscovery { timeout_ms: STOP_DISCOVERY_TIMEOUT_MS })
            &&& end.1 == ActionView::Done(
                Err(ErrorView::Network(bind_failure_message(s.port, failed.display()))),
            )
            &&& end.0.step == Step::Idle
            &&& end.0.pending is None
            &&& end.0.discovery is None
            &&& phase_spec(end.0) == Phase::Stopped
        }),
{
}

} // verus!
