use stationuli_core::p2p::mdns::{
    generate_device_id, multicast_group, DeviceInfo, MdnsDiscovery, ANNOUNCE_INTERVAL_MS,
    DISCOVERY_PORT,
};
use stationuli_core::p2p::registry::DeviceRegistry;
use stationuli_core::p2p::local_ip::Ipv4;
use stationuli_core::Error;

fn device(id: &str, name: &str) -> DeviceInfo {
    DeviceInfo {
        id: id.to_string(),
        name: name.to_string(),
        address: "192.168.1.7".to_string(),
        port: 9001,
        device_type: "desktop".to_string(),
    }
}

fn sorted(mut devices: Vec<DeviceInfo>) -> Vec<DeviceInfo> {
    devices.sort_by(|a, b| a.id.cmp(&b.id));
    devices
}

#[test]
fn added_device_is_listed() {
    let mut registry = DeviceRegistry::new();
    assert_eq!(registry.len(), 0);
    registry.add_device(device("a", "Anna"));
    registry.add_device(device("b", "Bert"));
    assert_eq!(registry.len(), 2);
    assert!(registry.contains("a"));
    assert!(!registry.contains("c"));
    assert_eq!(sorted(registry.get_devices()), vec![device("a", "Anna"), device("b", "Bert")]);
}

#[test]
fn adding_under_a_known_id_replaces_the_device() {
    let mut registry = DeviceRegistry::new();
    registry.add_device(device("a", "Anna"));
    registry.add_device(device("b", "Bert"));
    registry.add_device(device("a", "Anton"));
    assert_eq!(registry.len(), 2);
    assert_eq!(sorted(registry.get_devices()), vec![device("a", "Anton"), device("b", "Bert")]);
}

#[test]
fn removed_device_is_not_listed() {
    let mut registry = DeviceRegistry::new();
    registry.add_device(device("a", "Anna"));
    registry.add_device(device("b", "Bert"));
    assert_eq!(registry.remove_device("a"), Ok(()));
    assert_eq!(registry.get_devices(), vec![device("b", "Bert")]);
    assert!(!registry.contains("a"));
}

#[test]
fn removing_an_unknown_device_fails() {
    let mut registry = DeviceRegistry::new();
    registry.add_device(device("a", "Anna"));
    assert_eq!(
        registry.remove_device("zz"),
        Err(Error::NotFound("Device not found: zz".to_string()))
    );
    assert_eq!(registry.get_devices(), vec![device("a", "Anna")]);
    assert_eq!(registry.remove_device("a"), Ok(()));
    assert_eq!(
        registry.remove_device("a"),
        Err(Error::NotFound("Device not found: a".to_string()))
    );
}

#[test]
fn updating_describes_a_known_device_anew() {
    let mut registry = DeviceRegistry::new();
    registry.add_device(device("a", "Anna"));
    let mut moved = device("a", "Anna");
    moved.address = "10.1.1.1".to_string();
    moved.port = 9100;
    assert_eq!(registry.update_device(moved.clone()), Ok(()));
    assert_eq!(registry.get_devices(), vec![moved]);
    assert_eq!(
        registry.update_device(device("b", "Bert")),
        Err(Error::NotFound("Device not found: b".to_string()))
    );
    assert_eq!(registry.len(), 1);
}

#[test]
fn clearing_forgets_every_device() {
    let mut registry = DeviceRegistry::new();
    registry.add_device(device("a", "Anna"));
    registry.clear();
    assert_eq!(registry.get_devices(), vec![]);
}

#[test]
fn discovery_starts_fresh() {
    let d = MdnsDiscovery::with_identity(9001, Some("host-a".to_string()), 1_700_000_000);
    assert_eq!(d.port(), 9001);
    assert_eq!(d.device_name(), "host-a");
    assert_eq!(d.device_id(), generate_device_id(Some("host-a"), 1_700_000_000));
    assert!(!d.is_running());
    assert_eq!(d.get_local_ip(), None);
    assert_eq!(d.get_devices(), vec![]);
    let unnamed = MdnsDiscovery::with_identity(9001, None, 5);
    assert_eq!(unnamed.device_name(), "stationuli-device");
    assert_eq!(unnamed.device_id(), generate_device_id(None, 5));
    assert_eq!(generate_device_id(None, 5), generate_device_id(Some("unknown"), 5));
}

#[test]
fn device_id_is_a_hash_in_hex() {
    let id = generate_device_id(Some("host-a"), 1_700_000_000);
    let digits = id.strip_prefix("device-").expect("the id begins with device-");
    assert!(!digits.is_empty() && digits.len() <= 16);
    assert!(digits.chars().all(|c| c.is_ascii_digit() || ('a'..='f').contains(&c)));
    assert!(digits == "0" || !digits.starts_with('0'));
    assert_eq!(id, generate_device_id(Some("host-a"), 1_700_000_000));
    assert_ne!(id, generate_device_id(Some("host-a"), 1_700_000_001));
    assert_ne!(id, generate_device_id(Some("host-b"), 1_700_000_000));
}

#[test]
fn device_id_of_this_host_is_well_formed() {
    let d = MdnsDiscovery::new(8080);
    assert_eq!(d.port(), 8080);
    let digits = d.device_id().strip_prefix("device-").expect("the id begins with device-");
    assert!(!digits.is_empty());
    assert!(digits.chars().all(|c| c.is_ascii_digit() || ('a'..='f').contains(&c)));
    assert!(!d.device_name().is_empty());
    assert!(!d.is_running());
}

#[test]
fn start_keeps_the_address_that_probing_found() {
    let mut d = MdnsDiscovery::with_identity(9001, None, 0);
    assert_eq!(d.start(Some(Ipv4::new(192, 168, 1, 20))), Ok(()));
    assert!(d.is_running());
    assert_eq!(d.get_local_ip(), Some("192.168.1.20".to_string()));
    assert_eq!(d.start(Some(Ipv4::new(0, 0, 0, 0))), Ok(()));
    assert_eq!(d.get_local_ip(), None);
    assert_eq!(d.start(None), Ok(()));
    assert_eq!(d.get_local_ip(), None);
}

#[test]
fn stop_forgets_every_peer() {
    let mut d = MdnsDiscovery::with_identity(9001, None, 0);
    d.start(Some(Ipv4::new(192, 168, 1, 20))).unwrap();
    d.add_device(device("a", "Anna"));
    assert_eq!(d.stop(), Ok(()));
    assert!(!d.is_running());
    assert_eq!(d.get_devices(), vec![]);
    assert_eq!(d.stop(), Ok(()));
}

#[test]
fn registry_can_be_edited_while_discovery_does_not_run() {
    let mut d = MdnsDiscovery::with_identity(9001, None, 0);
    d.add_device(device("a", "Anna"));
    assert_eq!(d.get_devices(), vec![device("a", "Anna")]);
    assert_eq!(d.update_device(device("a", "Anton")), Ok(()));
    assert_eq!(d.remove_device("a"), Ok(()));
    assert_eq!(d.remove_device("a"), Err(Error::NotFound("Device not found: a".to_string())));
    assert_eq!(
        d.update_device(device("a", "Anton")),
        Err(Error::NotFound("Device not found: a".to_string()))
    );
}

#[test]
fn discovery_announces_itself() {
    let mut d = MdnsDiscovery::with_identity(9001, Some("host-a".to_string()), 7);
    d.set_device_type("mobile".to_string());
    let id = d.device_id().to_string();
    assert_eq!(d.announcement(), format!("STATIONULI:{}:host-a:mobile:9001:announce", id));
}

#[test]
fn announcement_of_a_peer_puts_it_into_the_registry() {
    let mut d = MdnsDiscovery::with_identity(9001, Some("host-a".to_string()), 7);
    assert!(d.on_announcement("STATIONULI:device-1f:Phone:mobile:9002:announce", "192.168.1.9"));
    assert_eq!(
        d.get_devices(),
        vec![DeviceInfo {
            id: "device-1f".to_string(),
            name: "Phone".to_string(),
            address: "192.168.1.9".to_string(),
            port: 9002,
            device_type: "mobile".to_string(),
        }]
    );
    assert!(d.on_announcement("STATIONULI:device-1f:Phone 2:mobile:9003:announce", "192.168.1.10"));
    let devices = d.get_devices();
    assert_eq!(devices.len(), 1);
    assert_eq!(devices[0].name, "Phone 2");
    assert_eq!(devices[0].address, "192.168.1.10");
    assert_eq!(devices[0].port, 9003);
}

#[test]
fn own_announcement_is_passed_over() {
    let mut d = MdnsDiscovery::with_identity(9001, Some("host-a".to_string()), 7);
    let own = d.announcement();
    assert!(!d.on_announcement(&own, "192.168.1.2"));
    assert_eq!(d.get_devices(), vec![]);
}

#[test]
fn packet_that_is_no_announcement_is_passed_over() {
    let mut d = MdnsDiscovery::with_identity(9001, Some("host-a".to_string()), 7);
    for packet in [
        "",
        "hello",
        "STATIONULI:a:b:c:9:announce:",
        "STATIONULI:a:b:c:announce",
        "stationuli:a:b:c:9:announce",
        "STATIONULI:a:b:c:9:goodbye",
        "STATIONULI:a:b:c:port:announce",
        "STATIONULI:a:b:c:65536:announce",
        "STATIONULI:a:b:c::announce",
        "STATIONULI:a:b:c:-1:announce",
        "STATIONULI:a:b:c:+1:announce",
        "STATIONULI:a:b:c: 1:announce",
    ] {
        assert!(!d.on_announcement(packet, "192.168.1.2"), "{}", packet);
    }
    assert_eq!(d.get_devices(), vec![]);
}

#[test]
fn discovery_constants() {
    assert_eq!(ANNOUNCE_INTERVAL_MS, 2000);
    assert_eq!(DISCOVERY_PORT, 5354);
    assert_eq!(multicast_group().to_text(), "224.0.0.251");
}
