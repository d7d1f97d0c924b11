//! The record by which a device announces itself on the local network:
//! `STATIONULI:<id>:<name>:<type>:<port>:announce`.

use crate::text::{chars_of, decimal, digit_char, push_decimal, same_chars};
use vstd::prelude::*;
use vstd::string::*;

verus! {

/// What a device says of itself when it announces itself.
#[derive(Debug, Clone, PartialEq, Eq)]
pub struct Announcement {
    pub id: String,
    pub name: String,
    pub device_type: String,
    pub port: u16,
}

/// The mathematical value of an [`Announcement`].
pub struct AnnouncementView {
    pub id: Seq<char>,
    pub name: Seq<char>,
    pub device_type: Seq<char>,
    pub port: u16,
}

impl View for Announcement {
    type V = AnnouncementView;

    open spec fn view(&self) -> AnnouncementView {
        AnnouncementView {
            id: self.id@,
            name: self.name@,
            device_type: self.device_type@,
            port: self.port,
        }
    }
}

/// The record that carries an announcement.
pub open spec fn announcement_text(a: AnnouncementView) -> Seq<char> {
    "STATIONULI"@ + ":"@ + a.id + ":"@ + a.name + ":"@ + a.device_type + ":"@ + decimal(
        a.port as nat,
    ) + ":"@ + "announce"@
}

/// The fields of a record: the pieces between its colons. A record without a
/// colon is one field; two colons in a row enclose an empty field.
pub open spec fn split_fields(text: Seq<char>) -> Seq<Seq<char>>
    decreases text.len(),
{
    if text.len() == 0 {
        seq![Seq::empty()]
    } else {
        let before = split_fields(text.drop_last());
        if text.last() == ':' {
            before.push(Seq::empty())
        } else {
            before.update(before.len() - 1, before.last().push(text.last()))
        }
    }
}

/// The value of a decimal digit, or -1 for any other character.
pub open spec fn digit_value(c: char) -> int {
    if c == '0' {
        0
    } else if c == '1' {
        1
    } else if c == '2' {
        2
    } else if c == '3' {
        3
    } else if c == '4' {
        4
    } else if c == '5' {
        5
    } else if c == '6' {
        6
    } else if c == '7' {
        7
    } else if c == '8' {
        8
    } else if c == '9' {
        9
    } else {
        -1
    }
}

/// Whether every character is a decimal digit.
pub open spec fn is_digits(s: Seq<char>) -> bool {
    forall|i: int| 0 <= i < s.len() ==> digit_value(#[trigger] s[i]) >= 0
}

/// The number that a row of decimal digits writes.
pub open spec fn digits_value(s: Seq<char>) -> int
    decreases s.len(),
{
    if s.len() == 0 {
        0
    } else {
        digits_value(s.drop_last()) * 10 + digit_value(s.last())
    }
}

/// The port that a field writes: one or more decimal digits that make a
/// number of at most 65535.
pub open spec fn parse_port(s: Seq<char>) -> Option<u16> {
    if s.len() > 0 && is_digits(s) && digits_value(s) <= 65535 {
        Some(digits_value(s) as u16)
    } else {
        None
    }
}

/// What a record announces, if it is an announcement: six fields, the first
/// `STATIONULI`, the last `announce`, the fifth a port.
pub open spec fn parse_spec(text: Seq<char>) -> Option<AnnouncementView> {
    let fields = split_fields(text);
    if fields.len() == 6 && fields[0] == "STATIONULI"@ && fields[5] == "announce"@ {
        match parse_port(fields[4]) {
            Some(port) => Some(
                AnnouncementView { id: fields[1], name: fields[2], device_type: fields[3], port },
            ),
            None => None,
        }
    } else {
        None
    }
}

/// The value of an announcement that may be missing.
pub open spec fn parsed_view(a: Option<Announcement>) -> Option<AnnouncementView> {
    match a {
        Some(a) => Some(a@),
        None => None,
    }
}

/// The record by which a device announces itself.
pub fn format_announcement(id: &str, name: &str, device_type: &str, port: u16) -> (text: String)
    ensures
        text@ == announcement_text(
            AnnouncementView { id: id@, name: name@, device_type: device_type@, port },
        ),
{
    let mut text = String::from_str("STATIONULI");
    text.append(":");
    text.append(id);
    text.append(":");
    text.append(name);
    text.append(":");
    text.append(device_type);
    text.append(":");
    push_decimal(&mut text, port as u64);
    text.append(":");
    text.append("announce");
    text
}

/// The values of a sequence of strings, in the same order.
pub open spec fn string_views(strings: Seq<String>) -> Seq<Seq<char>> {
    strings.map_values(|s: String| s@)
}

/// The fields of a record, in order.
pub fn split_record(text: &Vec<char>) -> (fields: Vec<String>)
    ensures
        string_views(fields@) == split_fields(text@),
{
    let mut fields: Vec<String> = Vec::new();
    let mut current = String::new();
    let mut i: usize = 0;
    assert(text@.take(0) =~= Seq::<char>::empty());
    assert(string_views(fields@).push(current@) =~= seq![Seq::<char>::empty()]);
    while i < text.len()
        invariant
            i <= text@.len(),
            string_views(fields@).push(current@) == split_fields(text@.take(i as int)),
        decreases text@.len() - i,
    {
        let c = text[i];
        let ghost done = string_views(fields@);
        let ghost field = current@;
        proof {
            assert(text@.take(i as int + 1).drop_last() =~= text@.take(i as int));
            assert(text@.take(i as int + 1).last() == c);
        }
        if c == ':' {
            fields.push(current);
            current = String::new();
            assert(string_views(fields@) =~= done.push(field));
        } else {
            current.push(c);
            assert(done.push(field).update(done.len() as int, field.push(c)) =~= done.push(
                field.push(c),
            ));
        }
        i = i + 1;
    }
    assert(text@.take(text@.len() as int) =~= text@);
    let ghost done = string_views(fields@);
    let ghost field = current@;
    fields.push(current);
    assert(string_views(fields@) =~= done.push(field));
    fields
}

fn digit_of(c: char) -> (d: Option<u32>)
    ensures
        match d {
            Some(v) => v == digit_value(c) && v <= 9,
            None => digit_value(c) == -1,
        },
{
    if c == '0' {
        Some(0)
    } else if c == '1' {
        Some(1)
    } else if c == '2' {
        Some(2)
    } else if c == '3' {
        Some(3)
    } else if c == '4' {
        Some(4)
    } else if c == '5' {
        Some(5)
    } else if c == '6' {
        Some(6)
    } else if c == '7' {
        Some(7)
    } else if c == '8' {
        Some(8)
    } else if c == '9' {
        Some(9)
    } else {
        None
    }
}

/// A row of digits is worth at least as much as each of its beginnings.
pub proof fn lemma_digits_grow(s: Seq<char>, n: int)
    requires
        is_digits(s),
        0 <= n <= s.len(),
    ensures
        0 <= digits_value(s.take(n)) <= digits_value(s),
    decreases s.len() - n,
{
    if n == s.len() {
        assert(s.take(n) =~= s);
        lemma_digits_nonnegative(s);
    } else {
        lemma_digits_grow(s, n + 1);
        assert(s.take(n + 1).drop_last() =~= s.take(n));
        assert(s.take(n + 1).last() == s[n]);
        lemma_digits_nonnegative(s.take(n));
    }
}

pub proof fn lemma_digits_nonnegative(s: Seq<char>)
    requires
        is_digits(s),
    ensures
        digits_value(s) >= 0,
    decreases s.len(),
{
    if s.len() > 0 {
        assert(is_digits(s.drop_last())) by {
            assert forall|i: int| 0 <= i < s.drop_last().len() implies digit_value(
                #[trigger] s.drop_last()[i],
            ) >= 0 by {
                assert(s.drop_last()[i] == s[i]);
            }
        }
        lemma_digits_nonnegative(s.drop_last());
        assert(digit_value(s[s.len() - 1]) >= 0);
    }
}

/// The port that a field writes, if it writes one.
pub fn parse_port_field(field: &Vec<char>) -> (port: Option<u16>)
    ensures
        port == parse_port(field@),
{
    if field.len() == 0 {
        return None;
    }
    let mut value: u32 = 0;
    let mut i: usize = 0;
    assert(field@.take(0) =~= Seq::<char>::empty());
    while i < field.len()
        invariant
            i <= field@.len(),
            is_digits(field@.take(i as int)),
            value == digits_value(field@.take(i as int)),
            value <= 65535,
        decreases field@.len() - i,
    {
        proof {
            assert(field@.take(i as int + 1).drop_last() =~= field@.take(i as int));
            assert(field@.take(i as int + 1).last() == field@[i as int]);
        }
        match digit_of(field[i]) {
            Some(d) => {
                value = value * 10 + d;
                proof {
                    assert forall|k: int| 0 <= k < i + 1 implies digit_value(
                        #[trigger] field@.take(i as int + 1)[k],
                    ) >= 0 by {
                        if k < i {
                            assert(field@.take(i as int)[k] == field@.take(i as int + 1)[k]);
                        }
                    }
                }
                if value > 65535 {
                    proof {
                        if is_digits(field@) {
                            lemma_digits_grow(field@, i as int + 1);
                        }
                    }
                    return None;
                }
            },
            None => {
                assert(digit_value(field@[i as int]) < 0);
                return None;
            },
        }
        i = i + 1;
    }
    assert(field@.take(field@.len() as int) =~= field@);
    Some(value as u16)
}

/// What a record announces, if it is an announcement. Anything else is
/// passed over.
pub fn parse_announcement(text: &str) -> (a: Option<Announcement>)
    ensures
        parsed_view(a) == parse_spec(text@),
{
    let chars = chars_of(text);
    let mut fields = split_record(&chars);
    if fields.len() != 6 {
        return None;
    }
    let ghost all = string_views(fields@);
    assert(forall|k: int| 0 <= k < 6 ==> all[k] == (#[trigger] fields@[k])@);
    let head = chars_of(fields[0].as_str());
    let expected_head = chars_of("STATIONULI");
    let tail = chars_of(fields[5].as_str());
    let expected_tail = chars_of("announce");
    if !same_chars(&head, &expected_head) || !same_chars(&tail, &expected_tail) {
        return None;
    }
    let port_field = chars_of(fields[4].as_str());
    let port = match parse_port_field(&port_field) {
        Some(p) => p,
        None => {
            return None;
        },
    };
    let id = fields[1].clone();
    let name = fields[2].clone();
    let device_type = fields[3].clone();
    Some(Announcement { id, name, device_type, port })
}

/// Whether a piece of text holds no colon.
pub open spec fn colon_free(s: Seq<char>) -> bool {
    forall|i: int| 0 <= i < s.len() ==> (#[trigger] s[i]) != ':'
}

/// Text without a colon is one field.
pub proof fn lemma_split_plain(f: Seq<char>)
    requires
        colon_free(f),
    ensures
        split_fields(f) == seq![f],
    decreases f.len(),
{
    if f.len() == 0 {
        assert(f =~= Seq::<char>::empty());
    } else {
        let rest = f.drop_last();
        assert(colon_free(rest)) by {
            assert forall|i: int| 0 <= i < rest.len() implies (#[trigger] rest[i]) != ':' by {
                assert(rest[i] == f[i]);
            }
        }
        lemma_split_plain(rest);
        assert(f.last() == f[f.len() - 1]);
        assert(seq![rest].update(0, rest.push(f.last())) =~= seq![f]) by {
            assert(rest.push(f.last()) =~= f);
        }
    }
}

/// A colon and text without a colon, put behind a record, add one field.
pub proof fn lemma_split_append(s: Seq<char>, f: Seq<char>)
    requires
        colon_free(f),
    ensures
        split_fields(s + seq![':'] + f) == split_fields(s).push(f),
    decreases f.len(),
{
    let whole = s + seq![':'] + f;
    if f.len() == 0 {
        assert(whole.drop_last() =~= s);
        assert(whole.last() == ':');
        assert(f =~= Seq::<char>::empty());
    } else {
        let rest = f.drop_last();
        assert(colon_free(rest)) by {
            assert forall|i: int| 0 <= i < rest.len() implies (#[trigger] rest[i]) != ':' by {
                assert(rest[i] == f[i]);
            }
        }
        lemma_split_append(s, rest);
        assert(whole.drop_last() =~= s + seq![':'] + rest);
        assert(whole.last() == f[f.len() - 1]);
        let before = split_fields(s).push(rest);
        assert(rest.push(f.last()) =~= f);
        assert(before.update(before.len() - 1, f) =~= split_fields(s).push(f));
    }
}

/// The decimal numeral of a number is a row of digits that writes the number.
pub proof fn lemma_decimal_reads_back(n: nat)
    ensures
        decimal(n).len() > 0,
        is_digits(decimal(n)),
        colon_free(decimal(n)),
        digits_value(decimal(n)) == n,
    decreases n,
{
    if n < 10 {
        assert(decimal(n).drop_last() =~= Seq::<char>::empty());
        assert(decimal(n).last() == digit_char(n));
        assert(digits_value(Seq::<char>::empty()) == 0);
        assert(digit_value(digit_char(n)) == n);
    } else {
        lemma_decimal_reads_back(n / 10);
        let head = decimal(n / 10);
        let all = decimal(n);
        assert(all.drop_last() =~= head);
        assert(all.last() == digit_char(n % 10));
        assert(digit_value(digit_char(n % 10)) == n % 10);
        assert forall|i: int| 0 <= i < all.len() implies digit_value(#[trigger] all[i]) >= 0 && all[i]
            != ':' by {
            if i < head.len() {
                assert(all[i] == head[i]);
            }
        }
    }
}

/// An announcement whose id, name and type hold no colon is read back from
/// its record as it was written.
pub proof fn lemma_parse_of_format(a: AnnouncementView)
    requires
        colon_free(a.id),
        colon_free(a.name),
        colon_free(a.device_type),
    ensures
        parse_spec(announcement_text(a)) == Some(a),
{
    reveal_strlit("STATIONULI");
    reveal_strlit(":");
    reveal_strlit("announce");
    let head = "STATIONULI"@;
    let tail = "announce"@;
    assert(":"@ =~= seq![':']);
    assert(colon_free(head));
    assert(colon_free(tail));
    lemma_decimal_reads_back(a.port as nat);
    let port = decimal(a.port as nat);
    let t1 = head + seq![':'] + a.id;
    let t2 = t1 + seq![':'] + a.name;
    let t3 = t2 + seq![':'] + a.device_type;
    let t4 = t3 + seq![':'] + port;
    let t5 = t4 + seq![':'] + tail;
    lemma_split_plain(head);
    lemma_split_append(head, a.id);
    lemma_split_append(t1, a.name);
    lemma_split_append(t2, a.device_type);
    lemma_split_append(t3, port);
    lemma_split_append(t4, tail);
    assert(announcement_text(a) == t5);
    assert(split_fields(t5) =~= seq![head, a.id, a.name, a.device_type, port, tail]);
}

} // verus!
