use stationuli_core::text::{
    begins_with, chars_of, contains_text, join2, push_decimal, push_lower_hex, same_text,
    string_of,
};
use stationuli_core::{init, Error};

fn chars(s: &str) -> Vec<char> {
    s.chars().collect()
}

fn u64_to_decimal(n: u64) -> String {
    let mut s = String::from("n=");
    push_decimal(&mut s, n);
    s.strip_prefix("n=").unwrap().to_string()
}

fn u64_to_lower_hex(n: u64) -> String {
    let mut s = String::from("0x");
    push_lower_hex(&mut s, n);
    s.strip_prefix("0x").unwrap().to_string()
}

#[test]
fn decimal_numerals() {
    assert_eq!(u64_to_decimal(0), "0");
    assert_eq!(u64_to_decimal(7), "7");
    assert_eq!(u64_to_decimal(10), "10");
    assert_eq!(u64_to_decimal(1_048_576), "1048576");
    assert_eq!(u64_to_decimal(u64::MAX), "18446744073709551615");
}

#[test]
fn hexadecimal_numerals() {
    assert_eq!(u64_to_lower_hex(0), "0");
    assert_eq!(u64_to_lower_hex(15), "f");
    assert_eq!(u64_to_lower_hex(16), "10");
    assert_eq!(u64_to_lower_hex(0xdead_beef), "deadbeef");
    assert_eq!(u64_to_lower_hex(u64::MAX), "ffffffffffffffff");
    for n in [1u64, 255, 256, 4095, 0x1234_5678_9abc_def0] {
        assert_eq!(u64_to_lower_hex(n), format!("{:x}", n));
        assert_eq!(u64_to_decimal(n), format!("{}", n));
    }
}

#[test]
fn characters_and_pieces() {
    assert_eq!(chars_of("häß€"), chars("häß€"));
    assert_eq!(chars_of(""), Vec::<char>::new());
    assert_eq!(string_of(&chars("hello"), 1, 4), "ell");
    assert_eq!(string_of(&chars("hello"), 2, 2), "");
    assert_eq!(join2("ab", "cd"), "abcd");
    assert!(same_text("abc", "abc"));
    assert!(!same_text("abc", "abd"));
    assert!(!same_text("abc", "ab"));
}

#[test]
fn beginnings_and_occurrences() {
    assert!(begins_with(&chars("content://x"), &chars("content://")));
    assert!(begins_with(&chars("abc"), &chars("")));
    assert!(!begins_with(&chars("ab"), &chars("abc")));
    assert!(contains_text(&chars("hello world"), &chars("lo w")));
    assert!(contains_text(&chars("hello"), &chars("")));
    assert!(contains_text(&chars("hello"), &chars("hello")));
    assert!(contains_text(&chars("hello"), &chars("o")));
    assert!(!contains_text(&chars("hello"), &chars("hellos")));
    assert!(!contains_text(&chars("hello"), &chars("lol")));
    assert!(!contains_text(&chars(""), &chars("a")));
    assert!(contains_text(&chars(""), &chars("")));
}

#[test]
fn errors_show_their_class_and_message() {
    assert_eq!(Error::Network("down".to_string()).to_string(), "Network error: down");
    assert_eq!(Error::Crypto("bad key".to_string()).to_string(), "Crypto error: bad key");
    assert_eq!(Error::File("gone".to_string()).to_string(), "File error: gone");
    assert_eq!(Error::Protocol("what".to_string()).to_string(), "Protocol error: what");
    assert_eq!(Error::NotFound("who".to_string()).to_string(), "Not found: who");
    assert_eq!(Error::File("gone".to_string()).message(), "gone");
}

#[test]
fn init_succeeds() {
    assert_eq!(init("desktop"), Ok(()));
    assert_eq!(init(""), Ok(()));
}
