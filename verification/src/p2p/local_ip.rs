//! Which address to advertise to peers. The address is found by probing: a
//! UDP socket is pointed at a far address without sending anything, and the
//! near end of the socket is read. The probing is the caller's; what to make of
//! the probes is decided here.

use crate::text::{decimal, push_decimal, same_text};
use vstd::prelude::*;
use vstd::string::*;

verus! {

/// An IPv4 address as its four numbers.
#[derive(Debug, Clone, Copy, PartialEq, Eq, Structural)]
pub struct Ipv4 {
    pub a: u8,
    pub b: u8,
    pub c: u8,
    pub d: u8,
}

impl Ipv4 {
    /// 127.x.x.x: the machine itself.
    pub open spec fn is_loopback(self) -> bool {
        self.a == 127
    }

    /// 0.0.0.0: no address.
    pub open spec fn is_unspecified(self) -> bool {
        self.a == 0 && self.b == 0 && self.c == 0 && self.d == 0
    }

    /// 10.0.2.x: the private network inside an emulator.
    pub open spec fn in_emulator_network(self) -> bool {
        self.a == 10 && self.b == 0 && self.c == 2
    }

    /// 10.0.2.15: the address that an emulator gives its guest.
    pub open spec fn is_emulator_guest(self) -> bool {
        self.in_emulator_network() && self.d == 15
    }

    /// An address of the host that peers can reach: not inside an emulator,
    /// not the machine itself, not missing.
    pub open spec fn is_host_address(self) -> bool {
        !self.in_emulator_network() && !self.is_loopback() && !self.is_unspecified()
    }

    /// An address worth advertising when a gateway probe found it: not the
    /// machine itself, not the emulator's guest address, not missing.
    pub open spec fn is_routable(self) -> bool {
        !self.is_loopback() && !self.is_emulator_guest() && !self.is_unspecified()
    }

    /// The address in dotted decimal, such as `192.168.1.20`.
    pub open spec fn text(self) -> Seq<char> {
        decimal(self.a as nat) + "."@ + decimal(self.b as nat) + "."@ + decimal(self.c as nat)
            + "."@ + decimal(self.d as nat)
    }

    /// The address in dotted decimal.
    pub fn to_text(&self) -> (s: String)
        ensures
            s@ == self.text(),
    {
        let mut s = String::new();
        push_decimal(&mut s, self.a as u64);
        assert(s@ =~= decimal(self.a as nat));
        s.append(".");
        push_decimal(&mut s, self.b as u64);
        s.append(".");
        push_decimal(&mut s, self.c as u64);
        s.append(".");
        push_decimal(&mut s, self.d as u64);
        s
    }

    pub fn new(a: u8, b: u8, c: u8, d: u8) -> (ip: Ipv4)
        ensures
            ip == (Ipv4 { a, b, c, d }),
    {
        Ipv4 { a, b, c, d }
    }
}

/// The far address of the first probe: a public one, so that the near end is
/// the address that leads out.
pub fn primary_probe_target() -> (target: &'static str)
    ensures
        target@ == "8.8.8.8:80"@,
{
    "8.8.8.8:80"
}

/// The far addresses of the further probes, in the order in which they are
/// tried.
pub fn further_probe_targets() -> (targets: Vec<&'static str>)
    ensures
        targets@.len() == 2,
        targets@[0]@ == "8.8.8.8:80"@,
        targets@[1]@ == "1.1.1.1:80"@,
{
    let mut targets: Vec<&'static str> = Vec::new();
    targets.push("8.8.8.8:80");
    targets.push("1.1.1.1:80");
    targets
}

/// The far addresses of the gateway probes: the usual gateways of home
/// networks, then the host as an emulator's guest sees it.
pub fn gateway_probe_targets() -> (targets: Vec<&'static str>)
    ensures
        targets@.len() == 3,
        targets@[0]@ == "192.168.1.1:80"@,
        targets@[1]@ == "192.168.0.1:80"@,
        targets@[2]@ == "10.0.2.2:80"@,
{
    let mut targets: Vec<&'static str> = Vec::new();
    targets.push("192.168.1.1:80");
    targets.push("192.168.0.1:80");
    targets.push("10.0.2.2:80");
    targets
}

/// The first probe that found an address of the host.
pub open spec fn first_host_address(probes: Seq<Option<Ipv4>>) -> Option<Ipv4>
    decreases probes.len(),
{
    if probes.len() == 0 {
        None
    } else if probes[0] is Some && probes[0]->0.is_host_address() {
        probes[0]
    } else {
        first_host_address(probes.drop_first())
    }
}

/// The first probe that found an address worth advertising.
pub open spec fn first_routable(probes: Seq<Option<Ipv4>>) -> Option<Ipv4>
    decreases probes.len(),
{
    if probes.len() == 0 {
        None
    } else if probes[0] is Some && probes[0]->0.is_routable() {
        probes[0]
    } else {
        first_routable(probes.drop_first())
    }
}

/// The local address of this device: what the first probe found, unless that
/// is the guest address of an emulator and a further probe found an address of
/// the host. Nothing where the first probe found nothing.
pub open spec fn local_ip_spec(primary: Option<Ipv4>, further: Seq<Option<Ipv4>>) -> Option<Ipv4> {
    match primary {
        None => None,
        Some(ip) => if ip.is_emulator_guest() {
            match first_host_address(further) {
                Some(host) => Some(host),
                None => Some(ip),
            }
        } else {
            Some(ip)
        },
    }
}

/// Whether further probes are wanted after the first: only where the first
/// found the guest address of an emulator.
pub fn wants_further_probes(primary: Option<Ipv4>) -> (r: bool)
    ensures
        r == (primary is Some && primary->0.is_emulator_guest()),
{
    match primary {
        Some(ip) => ip.a == 10 && ip.b == 0 && ip.c == 2 && ip.d == 15,
        None => false,
    }
}

/// The local address of this device, given what the first probe and the
/// further probes found.
pub fn choose_local_ip(primary: Option<Ipv4>, further: &Vec<Option<Ipv4>>) -> (r: Option<Ipv4>)
    ensures
        r == local_ip_spec(primary, further@),
{
    let ip = match primary {
        Some(ip) => ip,
        None => {
            return None;
        },
    };
    if !wants_further_probes(primary) {
        return Some(ip);
    }
    let mut i: usize = 0;
    assert(further@.skip(0) =~= further@);
    while i < further.len()
        invariant
            i <= further@.len(),
            primary == Some(ip),
            ip.is_emulator_guest(),
            first_host_address(further@) == first_host_address(further@.skip(i as int)),
        decreases further@.len() - i,
    {
        proof {
            assert(further@.skip(i as int)[0] == further@[i as int]);
            assert(further@.skip(i as int).drop_first() =~= further@.skip(i as int + 1));
        }
        match further[i] {
            Some(found) => {
                if !(found.a == 10 && found.b == 0 && found.c == 2) && found.a != 127 && !(found.a
                    == 0 && found.b == 0 && found.c == 0 && found.d == 0) {
                    return Some(found);
                }
            },
            None => {},
        }
        i = i + 1;
    }
    Some(ip)
}

/// The address to advertise, in order of preference: the address that
/// discovery has settled on, unless it is the guest address of an emulator or
/// no address; the first address worth advertising that a gateway probe found;
/// what the probe of a public address found, with the machine's own address in
/// place of an emulator's guest address. Nothing where all of these fail.
pub open spec fn advertised_ip_spec(
    known: Option<Seq<char>>,
    gateways: Seq<Option<Ipv4>>,
    public: Option<Ipv4>,
) -> Option<Seq<char>> {
    if known is Some && known->0 != "10.0.2.15"@ && known->0 != "0.0.0.0"@ {
        known
    } else if first_routable(gateways) is Some {
        Some(first_routable(gateways)->0.text())
    } else {
        match public {
            Some(ip) => if ip.is_emulator_guest() {
                Some("127.0.0.1"@)
            } else {
                Some(ip.text())
            },
            None => None,
        }
    }
}

/// The value of text that may be missing.
pub open spec fn text_view(s: Option<String>) -> Option<Seq<char>> {
    match s {
        Some(s) => Some(s@),
        None => None,
    }
}

/// The address to advertise to peers, given the address that discovery has
/// settled on and what the probes of the usual gateways and of a public
/// address found.
pub fn advertised_ip(known: Option<&str>, gateways: &Vec<Option<Ipv4>>, public: Option<Ipv4>) -> (r:
    Option<String>)
    ensures
        text_view(r) == advertised_ip_spec(
            match known {
                Some(k) => Some(k@),
                None => None,
            },
            gateways@,
            public,
        ),
{
    let ghost known_view: Option<Seq<char>> = match known {
        Some(k) => Some(k@),
        None => None,
    };
    match known {
        Some(k) => {
            if !same_text(k, "10.0.2.15") && !same_text(k, "0.0.0.0") {
                return Some(String::from_str(k));
            }
        },
        None => {},
    }
    let mut i: usize = 0;
    assert(gateways@.skip(0) =~= gateways@);
    while i < gateways.len()
        invariant
            i <= gateways@.len(),
            known_view == match known {
                Some(k) => Some(k@),
                None => None,
            },
            !(known_view is Some && known_view->0 != "10.0.2.15"@ && known_view->0 != "0.0.0.0"@),
            first_routable(gateways@) == first_routable(gateways@.skip(i as int)),
        decreases gateways@.len() - i,
    {
        proof {
            assert(gateways@.skip(i as int)[0] == gateways@[i as int]);
            assert(gateways@.skip(i as int).drop_first() =~= gateways@.skip(i as int + 1));
        }
        match gateways[i] {
            Some(found) => {
                if found.a != 127 && !(found.a == 10 && found.b == 0 && found.c == 2 && found.d
                    == 15) && !(found.a == 0 && found.b == 0 && found.c == 0 && found.d == 0) {
                    return Some(found.to_text());
                }
            },
            None => {},
        }
        i = i + 1;
    }
    match public {
        Some(ip) => {
            if ip.a == 10 && ip.b == 0 && ip.c == 2 && ip.d == 15 {
                Some(String::from_str("127.0.0.1"))
            } else {
                Some(ip.to_text())
            }
        },
        None => None,
    }
}

} // verus!
