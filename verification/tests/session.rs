use stationuli_core::p2p::local_ip::Ipv4;
use stationuli_core::p2p::mdns::DeviceInfo;
use stationuli_core::session::{
    is_address_in_use, Action, Event, ListenerHandle, Outcome, Phase, SessionManager, Step,
    TaskHandle, CLEAR_LISTENER_TIMEOUT_MS, FORCED_CLEAR_TIMEOUT_MS, PORT_RELEASE_MS, SETTLE_MS,
    STOP_DISCOVERY_TIMEOUT_MS,
};
use stationuli_core::Error;

fn device(id: &str) -> DeviceInfo {
    DeviceInfo {
        id: id.to_string(),
        name: "peer".to_string(),
        address: "192.168.1.7".to_string(),
        port: 9001,
        device_type: "desktop".to_string(),
    }
}

fn in_use() -> Error {
    Error::Network("Bind failed: Address already in use (os error 98)".to_string())
}

/// Starts the service on a coordinator without a discovery service and
/// checks every action on the way.
fn start_from_nothing(m: &mut SessionManager, port: u16, listener: u64, task: u64) {
    assert_eq!(m.begin_start(port), Action::ClearListener { timeout_ms: 5_000 });
    assert_eq!(m.phase(), Phase::Starting);
    assert_eq!(m.on_event(Event::ListenerCleared(Outcome::Completed)), Action::Wait { ms: 500 });
    assert_eq!(m.on_event(Event::Waited), Action::StartDiscovery { port });
    assert_eq!(
        m.on_event(Event::DiscoveryStarted(Some(Ipv4::new(192, 168, 1, 20)))),
        Action::Bind { port }
    );
    assert_eq!(
        m.on_event(Event::Bound(ListenerHandle(listener))),
        Action::SpawnReceiveLoop { listener: ListenerHandle(listener) }
    );
    assert_eq!(m.on_event(Event::Spawned(TaskHandle(task))), Action::Done(Ok(())));
}

#[test]
fn bounds_are_as_documented() {
    assert_eq!(STOP_DISCOVERY_TIMEOUT_MS, 60_000);
    assert_eq!(CLEAR_LISTENER_TIMEOUT_MS, 5_000);
    assert_eq!(FORCED_CLEAR_TIMEOUT_MS, 1_000);
    assert_eq!(SETTLE_MS, 500);
    assert_eq!(PORT_RELEASE_MS, 1_000);
}

#[test]
fn new_coordinator_has_no_session() {
    let m = SessionManager::new("desktop");
    assert_eq!(m.phase(), Phase::Stopped);
    assert_eq!(m.step(), Step::Idle);
    assert_eq!(m.listener(), None);
    assert_eq!(m.receive_task(), None);
    assert!(!m.has_discovery());
    assert_eq!(m.get_devices(), vec![]);
}

#[test]
fn start_brings_up_discovery_listener_and_loop() {
    let mut m = SessionManager::new("desktop");
    start_from_nothing(&mut m, 9001, 1, 10);
    assert_eq!(m.phase(), Phase::Running);
    assert_eq!(m.step(), Step::Idle);
    assert_eq!(m.listener(), Some(ListenerHandle(1)));
    assert_eq!(m.receive_task(), Some(TaskHandle(10)));
    assert!(m.has_discovery());
    assert_eq!(m.known_local_ip(), Some("192.168.1.20".to_string()));
    assert!(m.get_device_id().unwrap().starts_with("device-"));
}

#[test]
fn stop_without_a_session_does_nothing() {
    let mut m = SessionManager::new("desktop");
    assert_eq!(m.begin_stop(), Action::Done(Ok(())));
    assert_eq!(m.phase(), Phase::Stopped);
    assert_eq!(m.step(), Step::Idle);
    assert_eq!(m.listener(), None);
    assert!(!m.has_discovery());
    assert_eq!(m.begin_stop(), Action::Done(Ok(())));
}

#[test]
fn stop_tears_the_session_down() {
    let mut m = SessionManager::new("desktop");
    start_from_nothing(&mut m, 9001, 1, 10);
    assert_eq!(m.begin_stop(), Action::StopDiscovery { timeout_ms: 60_000 });
    assert_eq!(m.phase(), Phase::Stopping);
    assert_eq!(
        m.on_event(Event::DiscoveryStopped(Outcome::Completed)),
        Action::ClearListener { timeout_ms: 5_000 }
    );
    assert!(!m.has_discovery());
    assert_eq!(m.on_event(Event::ListenerCleared(Outcome::Completed)), Action::Wait { ms: 500 });
    assert_eq!(m.listener(), None);
    assert_eq!(m.receive_task(), None);
    assert_eq!(m.on_event(Event::Waited), Action::Done(Ok(())));
    assert_eq!(m.phase(), Phase::Stopped);
    assert_eq!(m.begin_stop(), Action::Done(Ok(())));
}

#[test]
fn restart_replaces_the_session() {
    let mut m = SessionManager::new("mobile");
    start_from_nothing(&mut m, 9001, 1, 10);
    m.add_device(device("a"));
    let first_id = m.get_device_id().unwrap();
    assert_eq!(m.begin_start(9001), Action::StopDiscovery { timeout_ms: 60_000 });
    assert_eq!(
        m.on_event(Event::DiscoveryStopped(Outcome::TimedOut)),
        Action::ClearListener { timeout_ms: 5_000 }
    );
    assert!(!m.has_discovery());
    assert_eq!(m.on_event(Event::ListenerCleared(Outcome::Completed)), Action::Wait { ms: 500 });
    assert_eq!(m.listener(), None);
    assert_eq!(m.on_event(Event::Waited), Action::StartDiscovery { port: 9001 });
    assert_eq!(m.on_event(Event::DiscoveryStarted(None)), Action::Bind { port: 9001 });
    assert!(!m.has_discovery());
    assert_eq!(
        m.on_event(Event::Bound(ListenerHandle(2))),
        Action::SpawnReceiveLoop { listener: ListenerHandle(2) }
    );
    assert_eq!(m.on_event(Event::Spawned(TaskHandle(11))), Action::Done(Ok(())));
    assert_eq!(m.phase(), Phase::Running);
    assert_eq!(m.listener(), Some(ListenerHandle(2)));
    assert_eq!(m.receive_task(), Some(TaskHandle(11)));
    assert_eq!(m.get_devices(), vec![]);
    assert_eq!(m.known_local_ip(), None);
    assert!(m.get_device_id().is_ok());
    let _ = first_id;
}

#[test]
fn stop_ends_well_while_the_loop_sits_in_accept() {
    let mut m = SessionManager::new("desktop");
    start_from_nothing(&mut m, 9001, 1, 10);
    assert_eq!(m.begin_stop(), Action::StopDiscovery { timeout_ms: 60_000 });
    assert_eq!(
        m.on_event(Event::DiscoveryStopped(Outcome::Failed)),
        Action::ClearListener { timeout_ms: 5_000 }
    );
    assert_eq!(m.on_event(Event::ListenerCleared(Outcome::TimedOut)), Action::Wait { ms: 500 });
    assert_eq!(m.on_event(Event::Waited), Action::Done(Ok(())));
    assert_eq!(m.step(), Step::Idle);
    assert!(!m.has_discovery());
    // The slot could not be had, so it still holds the listener.
    assert_eq!(m.listener(), Some(ListenerHandle(1)));
    assert_eq!(m.phase(), Phase::Stopped);
    // A start on the same port goes through once the slot can be had.
    start_from_nothing(&mut m, 9001, 2, 11);
    assert_eq!(m.phase(), Phase::Running);
    assert_eq!(m.listener(), Some(ListenerHandle(2)));
}

#[test]
fn port_in_use_is_tried_once_more() {
    let mut m = SessionManager::new("desktop");
    assert_eq!(m.begin_start(9001), Action::ClearListener { timeout_ms: 5_000 });
    m.on_event(Event::ListenerCleared(Outcome::TimedOut));
    m.on_event(Event::Waited);
    assert_eq!(m.on_event(Event::DiscoveryStarted(None)), Action::Bind { port: 9001 });
    assert_eq!(
        m.on_event(Event::BindFailed(in_use())),
        Action::ClearListener { timeout_ms: 1_000 }
    );
    assert_eq!(m.step(), Step::RetryClearing);
    assert_eq!(m.on_event(Event::ListenerCleared(Outcome::Completed)), Action::Wait { ms: 1_000 });
    assert_eq!(m.on_event(Event::Waited), Action::Bind { port: 9001 });
    assert_eq!(
        m.on_event(Event::Bound(ListenerHandle(5))),
        Action::SpawnReceiveLoop { listener: ListenerHandle(5) }
    );
    assert_eq!(m.on_event(Event::Spawned(TaskHandle(6))), Action::Done(Ok(())));
    assert_eq!(m.phase(), Phase::Running);
}

#[test]
fn second_bind_is_tried_at_once_when_the_slot_cannot_be_had() {
    let mut m = SessionManager::new("desktop");
    m.begin_start(9001);
    m.on_event(Event::ListenerCleared(Outcome::Completed));
    m.on_event(Event::Waited);
    m.on_event(Event::DiscoveryStarted(None));
    m.on_event(Event::BindFailed(in_use()));
    assert_eq!(m.on_event(Event::ListenerCleared(Outcome::TimedOut)), Action::Bind { port: 9001 });
    assert_eq!(m.step(), Step::Rebinding);
}

#[test]
fn second_bind_failure_ends_the_start() {
    let mut m = SessionManager::new("desktop");
    m.begin_start(9001);
    m.on_event(Event::ListenerCleared(Outcome::Completed));
    m.on_event(Event::Waited);
    m.on_event(Event::DiscoveryStarted(None));
    m.on_event(Event::BindFailed(in_use()));
    m.on_event(Event::ListenerCleared(Outcome::Completed));
    m.on_event(Event::Waited);
    assert_eq!(
        m.on_event(Event::BindFailed(Error::Network("Bind failed: still busy".to_string()))),
        Action::StopDiscovery { timeout_ms: 60_000 }
    );
    assert_eq!(m.phase(), Phase::Stopping);
    assert_eq!(
        m.on_event(Event::DiscoveryStopped(Outcome::Completed)),
        Action::Done(Err(Error::Network(
            "重试绑定端口失败: Network error: Bind failed: still busy (原始错误: Network error: Bind failed: Address already in use (os error 98))"
                .to_string()
        )))
    );
    assert_eq!(m.phase(), Phase::Stopped);
    assert!(!m.has_discovery());
    assert_eq!(m.listener(), None);
}

#[test]
fn bind_failure_of_another_kind_ends_the_start_at_once() {
    let mut m = SessionManager::new("desktop");
    m.begin_start(80);
    m.on_event(Event::ListenerCleared(Outcome::Completed));
    m.on_event(Event::Waited);
    m.on_event(Event::DiscoveryStarted(None));
    assert_eq!(
        m.on_event(Event::BindFailed(Error::Network(
            "Bind failed: Permission denied (os error 13)".to_string()
        ))),
        Action::StopDiscovery { timeout_ms: 60_000 }
    );
    assert_eq!(
        m.on_event(Event::DiscoveryStopped(Outcome::TimedOut)),
        Action::Done(Err(Error::Network(
            "Failed to start TCP listener on port 80: Network error: Bind failed: Permission denied (os error 13)"
                .to_string()
        )))
    );
    assert!(!m.has_discovery());
    assert_eq!(m.phase(), Phase::Stopped);
}

#[test]
fn discovery_that_cannot_start_ends_the_start() {
    let mut m = SessionManager::new("desktop");
    m.begin_start(9001);
    m.on_event(Event::ListenerCleared(Outcome::Completed));
    m.on_event(Event::Waited);
    assert_eq!(
        m.on_event(Event::DiscoveryFailed("no multicast".to_string())),
        Action::Done(Err(Error::Network("Failed to start service: no multicast".to_string())))
    );
    assert_eq!(m.step(), Step::Idle);
    assert_eq!(m.phase(), Phase::Stopped);
}

#[test]
fn request_during_an_operation_is_refused() {
    let mut m = SessionManager::new("desktop");
    m.begin_start(9001);
    let busy = Action::Done(Err(Error::Protocol("Another operation is in progress".to_string())));
    assert_eq!(m.begin_start(9002), busy);
    assert_eq!(m.begin_stop(), busy);
    assert_eq!(m.step(), Step::Clearing);
    assert_eq!(m.awaited(), Action::ClearListener { timeout_ms: 5_000 });
}

#[test]
fn report_that_answers_nothing_changes_nothing() {
    let mut m = SessionManager::new("desktop");
    assert_eq!(
        m.on_event(Event::Waited),
        Action::Done(Err(Error::Protocol("No operation is in progress".to_string())))
    );
    m.begin_start(9001);
    assert_eq!(m.on_event(Event::Waited), Action::ClearListener { timeout_ms: 5_000 });
    assert_eq!(
        m.on_event(Event::Bound(ListenerHandle(3))),
        Action::ClearListener { timeout_ms: 5_000 }
    );
    assert_eq!(m.step(), Step::Clearing);
    assert_eq!(m.listener(), None);
}

#[test]
fn devices_can_be_put_in_before_the_service_runs() {
    let mut m = SessionManager::new("mobile");
    assert_eq!(m.remove_device("a"), Err(Error::NotFound("Service not started".to_string())));
    assert_eq!(
        m.update_device(device("a")),
        Err(Error::NotFound("Service not started".to_string()))
    );
    assert_eq!(m.get_device_id(), Err(Error::NotFound("Service not started".to_string())));
    assert_eq!(m.known_local_ip(), None);
    m.add_device(device("a"));
    assert!(m.has_discovery());
    assert_eq!(m.phase(), Phase::Stopped);
    assert_eq!(m.get_devices(), vec![device("a")]);
    let mut renamed = device("a");
    renamed.name = "renamed".to_string();
    assert_eq!(m.update_device(renamed.clone()), Ok(()));
    assert_eq!(m.get_devices(), vec![renamed]);
    assert_eq!(m.remove_device("a"), Ok(()));
    assert_eq!(m.remove_device("a"), Err(Error::NotFound("Device not found: a".to_string())));
    // A stop lets the stand-in discovery service go.
    assert_eq!(m.begin_stop(), Action::StopDiscovery { timeout_ms: 60_000 });
}

#[test]
fn announcements_reach_the_installed_discovery_service() {
    let mut m = SessionManager::new("desktop");
    assert!(!m.on_announcement("STATIONULI:x:Phone:mobile:9002:announce", "192.168.1.9"));
    start_from_nothing(&mut m, 9001, 1, 10);
    assert!(m.on_announcement("STATIONULI:x:Phone:mobile:9002:announce", "192.168.1.9"));
    assert!(!m.on_announcement("noise", "192.168.1.9"));
    let devices = m.get_devices();
    assert_eq!(devices.len(), 1);
    assert_eq!(devices[0].id, "x");
    assert_eq!(devices[0].address, "192.168.1.9");
}

#[test]
fn words_of_a_port_in_use() {
    assert!(is_address_in_use("Bind failed: Address already in use (os error 98)"));
    assert!(is_address_in_use("address already in use"));
    assert!(is_address_in_use("socket already bound"));
    assert!(is_address_in_use("端口被占用"));
    assert!(!is_address_in_use("Permission denied"));
    assert!(!is_address_in_use("Address Already In Use"));
    assert!(!is_address_in_use(""));
}
