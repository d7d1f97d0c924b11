use stationuli_core::p2p::local_ip::{
    advertised_ip, choose_local_ip, further_probe_targets, gateway_probe_targets,
    primary_probe_target, wants_further_probes, Ipv4,
};

fn ip(a: u8, b: u8, c: u8, d: u8) -> Option<Ipv4> {
    Some(Ipv4::new(a, b, c, d))
}

#[test]
fn address_is_written_in_dotted_decimal() {
    assert_eq!(Ipv4::new(192, 168, 1, 20).to_text(), "192.168.1.20");
    assert_eq!(Ipv4::new(0, 0, 0, 0).to_text(), "0.0.0.0");
    assert_eq!(Ipv4::new(255, 255, 255, 255).to_text(), "255.255.255.255");
    assert_eq!(Ipv4::new(10, 0, 2, 15).to_text(), "10.0.2.15");
}

#[test]
fn first_probe_decides_outside_an_emulator() {
    assert_eq!(choose_local_ip(None, &vec![ip(192, 168, 1, 2)]), None);
    assert_eq!(choose_local_ip(ip(192, 168, 1, 20), &vec![ip(192, 168, 1, 2)]), ip(192, 168, 1, 20));
    assert_eq!(choose_local_ip(ip(10, 0, 2, 14), &vec![ip(192, 168, 1, 2)]), ip(10, 0, 2, 14));
    assert_eq!(choose_local_ip(ip(0, 0, 0, 0), &vec![]), ip(0, 0, 0, 0));
}

#[test]
fn further_probes_are_wanted_only_for_the_guest_address() {
    assert!(wants_further_probes(ip(10, 0, 2, 15)));
    assert!(!wants_further_probes(ip(10, 0, 2, 2)));
    assert!(!wants_further_probes(ip(192, 168, 1, 20)));
    assert!(!wants_further_probes(None));
}

#[test]
fn guest_address_gives_way_to_the_first_address_of_the_host() {
    let guest = ip(10, 0, 2, 15);
    assert_eq!(choose_local_ip(guest, &vec![]), guest);
    assert_eq!(choose_local_ip(guest, &vec![None, None]), guest);
    assert_eq!(
        choose_local_ip(guest, &vec![None, ip(10, 0, 2, 2), ip(127, 0, 0, 1), ip(0, 0, 0, 0)]),
        guest
    );
    assert_eq!(
        choose_local_ip(guest, &vec![ip(10, 0, 2, 15), ip(192, 168, 1, 20), ip(172, 16, 0, 1)]),
        ip(192, 168, 1, 20)
    );
}

#[test]
fn known_address_is_advertised_first() {
    assert_eq!(
        advertised_ip(Some("192.168.1.20"), &vec![ip(192, 168, 0, 5)], ip(172, 16, 0, 1)),
        Some("192.168.1.20".to_string())
    );
}

#[test]
fn gateway_probe_stands_in_for_an_unusable_known_address() {
    for known in [None, Some("10.0.2.15"), Some("0.0.0.0")] {
        assert_eq!(
            advertised_ip(
                known,
                &vec![None, ip(127, 0, 0, 1), ip(10, 0, 2, 15), ip(0, 0, 0, 0), ip(192, 168, 0, 5)],
                ip(172, 16, 0, 1)
            ),
            Some("192.168.0.5".to_string())
        );
    }
    assert_eq!(
        advertised_ip(None, &vec![ip(10, 0, 2, 16)], None),
        Some("10.0.2.16".to_string())
    );
}

#[test]
fn public_probe_comes_last() {
    assert_eq!(
        advertised_ip(None, &vec![None, ip(127, 0, 0, 1)], ip(172, 16, 0, 1)),
        Some("172.16.0.1".to_string())
    );
    assert_eq!(advertised_ip(None, &vec![], ip(10, 0, 2, 15)), Some("127.0.0.1".to_string()));
    assert_eq!(advertised_ip(Some("10.0.2.15"), &vec![], None), None);
}

#[test]
fn probes_point_at_the_usual_addresses() {
    assert_eq!(primary_probe_target(), "8.8.8.8:80");
    assert_eq!(further_probe_targets(), vec!["8.8.8.8:80", "1.1.1.1:80"]);
    assert_eq!(gateway_probe_targets(), vec!["192.168.1.1:80", "192.168.0.1:80", "10.0.2.2:80"]);
}
