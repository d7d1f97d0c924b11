//! Discovery of devices on the local network: who this device is, and the
//! registry of the peers it knows.

use super::announce::{
    announcement_text, format_announcement, parse_announcement, parse_spec, AnnouncementView,
};
use super::local_ip::Ipv4;
use super::registry::{
    add_spec, lists, registry_result, remove_spec, update_spec, DeviceRegistry,
};
use crate::text::{lower_hex, push_lower_hex, same_text};
use crate::Error;
use std::collections::hash_map::DefaultHasher;
use std::hash::Hasher;
use vstd::prelude::*;
use vstd::std_specs::hash::DefaultHasherAdditionalSpecFns;
use vstd::string::*;

verus! {

/// A device on the network, as far as a peer needs to know it.
#[derive(Debug, Clone, PartialEq, Eq)]
pub struct DeviceInfo {
    pub id: String,
    pub name: String,
    pub address: String,
    pub port: u16,
    /// `desktop`, `mobile` or `unknown`.
    pub device_type: String,
}

/// The mathematical value of a [`DeviceInfo`].
pub struct DeviceInfoView {
    pub id: Seq<char>,
    pub name: Seq<char>,
    pub address: Seq<char>,
    pub port: u16,
    pub device_type: Seq<char>,
}

impl View for DeviceInfo {
    type V = DeviceInfoView;

    open spec fn view(&self) -> DeviceInfoView {
        DeviceInfoView {
            id: self.id@,
            name: self.name@,
            address: self.address@,
            port: self.port,
            device_type: self.device_type@,
        }
    }
}

impl DeviceInfo {
    /// A copy of this device's description.
    pub fn duplicate(&self) -> (d: DeviceInfo)
        ensures
            d@ == self@,
    {
        DeviceInfo {
            id: self.id.clone(),
            name: self.name.clone(),
            address: self.address.clone(),
            port: self.port,
            device_type: self.device_type.clone(),
        }
    }
}

/// The values of a sequence of devices, in the same order.
pub open spec fn device_views(devices: Seq<DeviceInfo>) -> Seq<DeviceInfoView> {
    devices.map_values(|d: DeviceInfo| d@)
}

/// The eight bytes of a number, least significant first.
pub open spec fn le_bytes(n: u64) -> Seq<u8> {
    seq![
        (n % 0x100) as u8,
        ((n / 0x100) % 0x100) as u8,
        ((n / 0x1_0000) % 0x100) as u8,
        ((n / 0x100_0000) % 0x100) as u8,
        ((n / 0x1_0000_0000) % 0x100) as u8,
        ((n / 0x100_0000_0000) % 0x100) as u8,
        ((n / 0x1_0000_0000_0000) % 0x100) as u8,
        ((n / 0x100_0000_0000_0000) % 0x100) as u8,
    ]
}

/// What is hashed to tell one run of one host from every other: the host's
/// name as UTF-8, a byte that ends the name, and the time of the start.
pub open spec fn identity_input(host: Seq<char>, started: u64) -> Seq<Seq<u8>> {
    seq![vstd::utf8::encode_utf8(host), seq![0xffu8], le_bytes(started)]
}

/// The id of the device run by the host `host` since `started`, in seconds
/// since 1970.
pub open spec fn device_id_spec(host: Option<Seq<char>>, started: u64) -> Seq<char> {
    "device-"@ + lower_hex(
        DefaultHasher::spec_finish(
            identity_input(
                match host {
                    Some(h) => h,
                    None => "unknown"@,
                },
                started,
            ),
        ) as nat,
    )
}

/// The name under which the host `host` shows up on other devices.
pub open spec fn device_name_spec(host: Option<Seq<char>>) -> Seq<char> {
    match host {
        Some(h) => h,
        None => "stationuli-device"@,
    }
}

/// The id of the device run by the host `host` since `started`.
pub fn generate_device_id(host: Option<&str>, started: u64) -> (id: String)
    ensures
        id@ == device_id_spec(
            match host {
                Some(h) => Some(h@),
                None => None,
            },
            started,
        ),
{
    let name: &str = match host {
        Some(h) => h,
        None => "unknown",
    };
    let mut hasher = DefaultHasher::new();
    hasher.write(name.as_bytes());
    let mut end: Vec<u8> = Vec::new();
    end.push(0xffu8);
    hasher.write(end.as_slice());
    let mut time: Vec<u8> = Vec::new();
    time.push((started % 0x100) as u8);
    time.push(((started / 0x100) % 0x100) as u8);
    time.push(((started / 0x1_0000) % 0x100) as u8);
    time.push(((started / 0x100_0000) % 0x100) as u8);
    time.push(((started / 0x1_0000_0000) % 0x100) as u8);
    time.push(((started / 0x100_0000_0000) % 0x100) as u8);
    time.push(((started / 0x1_0000_0000_0000) % 0x100) as u8);
    time.push(((started / 0x100_0000_0000_0000) % 0x100) as u8);
    hasher.write(time.as_slice());
    assert(end@ =~= seq![0xffu8]);
    assert(time@ =~= le_bytes(started));
    assert(hasher@ =~= identity_input(name@, started));
    let hash = hasher.finish();
    let mut id = String::from_str("device-");
    push_lower_hex(&mut id, hash);
    id
}

/// `hostname::get`: the name of this host as the system reports it, where
/// the system does and the name is valid Unicode. It depends on the machine,
/// so nothing is claimed of it.
#[verifier::external_body]
fn host_name() -> (name: Option<String>) {
    hostname::get().ok().and_then(|h| h.to_str().map(|s| s.to_string()))
}

/// `std::time::SystemTime::now`, as whole seconds since the start of 1970, or
/// zero where the clock stands before that. It depends on the moment, so
/// nothing is claimed of it.
#[verifier::external_body]
fn unix_seconds() -> (seconds: u64) {
    match std::time::SystemTime::now().duration_since(std::time::UNIX_EPOCH) {
        Ok(elapsed) => elapsed.as_secs(),
        Err(_) => 0,
    }
}

/// The value of a discovery service.
pub struct MdnsDiscoveryView {
    /// The peers that are known, each under its id.
    pub devices: Map<Seq<char>, DeviceInfoView>,
    /// The port on which this device takes transfers.
    pub port: u16,
    pub device_id: Seq<char>,
    pub device_name: Seq<char>,
    pub device_type: Seq<char>,
    /// Whether the service announces itself and listens.
    pub running: bool,
    /// The address that peers can reach, once it is known.
    pub local_ip: Option<Seq<char>>,
}

/// Announces this device on the local network and keeps the registry of the
/// peers that announce themselves or are put in by hand.
pub struct MdnsDiscovery {
    registry: DeviceRegistry,
    port: u16,
    device_id: String,
    device_name: String,
    device_type: String,
    running: bool,
    local_ip: Option<String>,
}

impl View for MdnsDiscovery {
    type V = MdnsDiscoveryView;

    closed spec fn view(&self) -> MdnsDiscoveryView {
        MdnsDiscoveryView {
            devices: self.registry@,
            port: self.port,
            device_id: self.device_id@,
            device_name: self.device_name@,
            device_type: self.device_type@,
            running: self.running,
            local_ip: match self.local_ip {
                Some(ip) => Some(ip@),
                None => None,
            },
        }
    }
}

/// A service that has not run yet and knows no peer.
pub open spec fn fresh_discovery(port: u16, host: Option<Seq<char>>, started: u64) -> MdnsDiscoveryView {
    MdnsDiscoveryView {
        devices: Map::empty(),
        port,
        device_id: device_id_spec(host, started),
        device_name: device_name_spec(host),
        device_type: "unknown"@,
        running: false,
        local_ip: None,
    }
}

/// Whether a service is fresh for some host and time of start, given as a
/// pair.
pub open spec fn is_fresh(s: MdnsDiscoveryView, port: u16, identity: (Option<Seq<char>>, u64)) -> bool {
    s == fresh_discovery(port, identity.0, identity.1)
}

/// The address that a started service keeps: what probing found, unless that
/// is no address.
pub open spec fn kept_ip(probed: Option<Ipv4>) -> Option<Seq<char>> {
    match probed {
        Some(ip) => if ip.is_unspecified() {
            None
        } else {
            Some(ip.text())
        },
        None => None,
    }
}

/// The device that an announcement describes, at the address it came from.
pub open spec fn announced_device(a: AnnouncementView, source: Seq<char>) -> DeviceInfoView {
    DeviceInfoView {
        id: a.id,
        name: a.name,
        address: source,
        port: a.port,
        device_type: a.device_type,
    }
}

/// What a packet from `source` does to a service: an announcement of another
/// device puts that device into the registry, at the address the packet came
/// from; this device's own announcement and anything that is no announcement
/// change nothing.
pub open spec fn heard_spec(
    s: MdnsDiscoveryView,
    packet: Seq<char>,
    source: Seq<char>,
) -> MdnsDiscoveryView {
    match parse_spec(packet) {
        Some(a) => if a.id == s.device_id {
            s
        } else {
            MdnsDiscoveryView { devices: add_spec(s.devices, announced_device(a, source)), ..s }
        },
        None => s,
    }
}

/// Whether a packet announces a peer to a service: it is an announcement, and
/// not the service's own.
pub open spec fn hears(s: MdnsDiscoveryView, packet: Seq<char>) -> bool {
    parse_spec(packet) is Some && parse_spec(packet)->0.id != s.device_id
}

impl MdnsDiscovery {
    /// A service for the device that the host `host` runs since `started`
    /// (seconds since 1970), taking transfers on `port`.
    pub fn with_identity(port: u16, host: Option<String>, started: u64) -> (s: MdnsDiscovery)
        ensures
            s@ == fresh_discovery(
                port,
                match host {
                    Some(h) => Some(h@),
                    None => None,
                },
                started,
            ),
    {
        let device_id = match &host {
            Some(h) => generate_device_id(Some(h.as_str()), started),
            None => generate_device_id(None, started),
        };
        let device_name = match host {
            Some(h) => h,
            None => String::from_str("stationuli-device"),
        };
        MdnsDiscovery {
            registry: DeviceRegistry::new(),
            port,
            device_id,
            device_name,
            device_type: String::from_str("unknown"),
            running: false,
            local_ip: None,
        }
    }

    /// A service for this device as it runs now, taking transfers on `port`.
    /// Name and id come from the host's name and the time.
    pub fn new(port: u16) -> (s: MdnsDiscovery)
        ensures
            exists|identity: (Option<Seq<char>>, u64)| is_fresh(s@, port, identity),
    {
        let host = host_name();
        let started = unix_seconds();
        let ghost host_view: Option<Seq<char>> = match &host {
            Some(h) => Some(h@),
            None => None,
        };
        let s = MdnsDiscovery::with_identity(port, host, started);
        assert(is_fresh(s@, port, (host_view, started)));
        s
    }

    /// Says what kind of device this is: `desktop` or `mobile`.
    pub fn set_device_type(&mut self, device_type: String)
        ensures
            final(self)@ == (MdnsDiscoveryView { device_type: device_type@, ..old(self)@ }),
    {
        self.device_type = device_type;
    }

    /// Starts the service with the local address that probing found.
    pub fn start(&mut self, probed: Option<Ipv4>) -> (r: Result<(), Error>)
        ensures
            r is Ok,
            final(self)@ == (MdnsDiscoveryView {
                running: true,
                local_ip: kept_ip(probed),
                ..old(self)@
            }),
    {
        self.local_ip = match probed {
            Some(ip) => {
                if ip.a == 0 && ip.b == 0 && ip.c == 0 && ip.d == 0 {
                    None
                } else {
                    Some(ip.to_text())
                }
            },
            None => None,
        };
        self.running = true;
        Ok(())
    }

    /// Stops the service and forgets every peer.
    pub fn stop(&mut self) -> (r: Result<(), Error>)
        ensures
            r is Ok,
            final(self)@ == (MdnsDiscoveryView {
                running: false,
                devices: Map::empty(),
                ..old(self)@
            }),
    {
        self.registry.clear();
        self.running = false;
        Ok(())
    }

    /// Puts a peer into the registry by hand, in place of what was there under
    /// its id. This works whether the service runs or not.
    pub fn add_device(&mut self, device: DeviceInfo)
        ensures
            final(self)@ == (MdnsDiscoveryView {
                devices: add_spec(old(self)@.devices, device@),
                ..old(self)@
            }),
    {
        self.registry.add_device(device);
    }

    /// Takes the peer `id` out of the registry; fails where it is not there.
    pub fn remove_device(&mut self, id: &str) -> (r: Result<(), Error>)
        ensures
            registry_result(final(self)@.devices, r) == remove_spec(old(self)@.devices, id@),
            final(self)@ == (MdnsDiscoveryView { devices: final(self)@.devices, ..old(self)@ }),
            r is Err ==> final(self)@ == old(self)@,
    {
        self.registry.remove_device(id)
    }

    /// Describes the peer `device.id` anew; fails where it is not there.
    pub fn update_device(&mut self, device: DeviceInfo) -> (r: Result<(), Error>)
        ensures
            registry_result(final(self)@.devices, r) == update_spec(old(self)@.devices, device@),
            final(self)@ == (MdnsDiscoveryView { devices: final(self)@.devices, ..old(self)@ }),
            r is Err ==> final(self)@ == old(self)@,
    {
        self.registry.update_device(device)
    }

    /// A copy of every peer in the registry, in no particular order.
    pub fn get_devices(&self) -> (snapshot: Vec<DeviceInfo>)
        ensures
            lists(device_views(snapshot@), self@.devices),
            snapshot@.len() == self@.devices.dom().len(),
    {
        self.registry.get_devices()
    }

    /// The id of this device.
    pub fn device_id(&self) -> (id: &str)
        ensures
            id@ == self@.device_id,
    {
        self.device_id.as_str()
    }

    /// The name of this device.
    pub fn device_name(&self) -> (name: &str)
        ensures
            name@ == self@.device_name,
    {
        self.device_name.as_str()
    }

    /// The port on which this device takes transfers.
    pub fn port(&self) -> (port: u16)
        ensures
            port == self@.port,
    {
        self.port
    }

    /// Whether the service has been started and not stopped since.
    pub fn is_running(&self) -> (r: bool)
        ensures
            r == self@.running,
    {
        self.running
    }

    /// The address that peers can reach, once the service has found it.
    pub fn get_local_ip(&self) -> (ip: Option<String>)
        ensures
            match ip {
                Some(text) => self@.local_ip == Some(text@),
                None => self@.local_ip is None,
            },
    {
        match &self.local_ip {
            Some(ip) => Some(ip.clone()),
            None => None,
        }
    }

    /// The record to send to the multicast group every few seconds.
    pub fn announcement(&self) -> (text: String)
        ensures
            text@ == announcement_text(
                AnnouncementView {
                    id: self@.device_id,
                    name: self@.device_name,
                    device_type: self@.device_type,
                    port: self@.port,
                },
            ),
    {
        format_announcement(
            self.device_id.as_str(),
            self.device_name.as_str(),
            self.device_type.as_str(),
            self.port,
        )
    }

    /// Takes a packet that came from `source` on the multicast group. Says
    /// whether the packet announced a peer.
    pub fn on_announcement(&mut self, packet: &str, source: &str) -> (heard: bool)
        ensures
            final(self)@ == heard_spec(old(self)@, packet@, source@),
            heard == hears(old(self)@, packet@),
    {
        match parse_announcement(packet) {
            Some(a) => {
                if same_text(a.id.as_str(), self.device_id.as_str()) {
                    false
                } else {
                    self.registry.add_device(
                        DeviceInfo {
                            id: a.id,
                            name: a.name,
                            address: String::from_str(source),
                            port: a.port,
                            device_type: a.device_type,
                        },
                    );
                    true
                }
            },
            None => false,
        }
    }
}

/// How long to wait between two announcements, in milliseconds.
pub const ANNOUNCE_INTERVAL_MS: u64 = 2000;

/// The UDP port of the multicast group.
pub const DISCOVERY_PORT: u16 = 5354;

/// The multicast group on which devices announce themselves: 224.0.0.251.
pub fn multicast_group() -> (group: Ipv4)
    ensures
        group == (Ipv4 { a: 224, b: 0, c: 0, d: 251 }),
{
    Ipv4 { a: 224, b: 0, c: 0, d: 251 }
}

} // verus!
