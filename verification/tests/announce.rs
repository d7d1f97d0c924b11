use stationuli_core::p2p::announce::{
    format_announcement, parse_announcement, parse_port_field, split_record, Announcement,
};

fn chars(s: &str) -> Vec<char> {
    s.chars().collect()
}

#[test]
fn record_has_six_fields() {
    assert_eq!(
        format_announcement("device-1f", "Anna's laptop", "desktop", 9001),
        "STATIONULI:device-1f:Anna's laptop:desktop:9001:announce"
    );
    assert_eq!(format_announcement("", "", "", 0), "STATIONULI::::0:announce");
    assert_eq!(format_announcement("i", "n", "t", 65535), "STATIONULI:i:n:t:65535:announce");
}

#[test]
fn record_is_read_back() {
    for (id, name, kind, port) in [
        ("device-1f", "Anna's laptop", "desktop", 9001u16),
        ("", "", "", 0),
        ("i", "名前", "mobile", 65535),
        ("x", " spaced ", "unknown", 80),
    ] {
        let text = format_announcement(id, name, kind, port);
        assert_eq!(
            parse_announcement(&text),
            Some(Announcement {
                id: id.to_string(),
                name: name.to_string(),
                device_type: kind.to_string(),
                port,
            })
        );
    }
}

#[test]
fn record_with_a_colon_in_a_field_is_not_read_back() {
    let text = format_announcement("a", "b:c", "desktop", 1);
    assert_eq!(parse_announcement(&text), None);
}

#[test]
fn port_may_have_leading_zeros() {
    assert_eq!(
        parse_announcement("STATIONULI:a:b:c:0080:announce").map(|a| a.port),
        Some(80)
    );
}

#[test]
fn fields_are_the_pieces_between_colons() {
    assert_eq!(split_record(&chars("")), vec![""]);
    assert_eq!(split_record(&chars("abc")), vec!["abc"]);
    assert_eq!(split_record(&chars(":")), vec!["", ""]);
    assert_eq!(split_record(&chars("a:b")), vec!["a", "b"]);
    assert_eq!(split_record(&chars("a::b:")), vec!["a", "", "b", ""]);
}

#[test]
fn port_is_digits_up_to_65535() {
    assert_eq!(parse_port_field(&chars("0")), Some(0));
    assert_eq!(parse_port_field(&chars("9001")), Some(9001));
    assert_eq!(parse_port_field(&chars("65535")), Some(65535));
    assert_eq!(parse_port_field(&chars("000065535")), Some(65535));
    assert_eq!(parse_port_field(&chars("65536")), None);
    assert_eq!(parse_port_field(&chars("99999999999999999999999")), None);
    assert_eq!(parse_port_field(&chars("")), None);
    assert_eq!(parse_port_field(&chars("12a")), None);
    assert_eq!(parse_port_field(&chars("٣")), None);
    assert_eq!(parse_port_field(&chars("700000x")), None);
}
