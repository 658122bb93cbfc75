use canis::dates::{observed_at_text, start_time_text, Ymd};
use canis::db::{format_entry, OperationType};
use canis::error::WatcherError;
use canis::event::CanonicalEvent;
use canis::hashing::{encode_base64, hash_bytes};
use canis::text::{decimal_exec, fill_template, join_exec, replace_char_exec, trim_chars};
use canis::uri::{path_to_uri, Uri};

#[test]
fn absolute_path_becomes_file_uri() {
    let u = path_to_uri("/tmp/foo.txt").unwrap();
    assert_eq!(u.as_str(), "file:///tmp/foo.txt");
    assert_eq!(u.scheme(), "file");
    assert_eq!(u.to_file_path(), Some("/tmp/foo.txt".to_string()));
}

#[test]
fn path_with_space_is_percent_encoded_and_decoded_back() {
    let u = path_to_uri("/tmp/my file.txt").unwrap();
    assert_eq!(u.as_str(), "file:///tmp/my%20file.txt");
    assert_eq!(u.to_file_path(), Some("/tmp/my file.txt".to_string()));
}

#[test]
fn relative_path_is_refused() {
    match path_to_uri("foo") {
        Err(WatcherError::UriFailed(m)) => assert_eq!(m, "Expected absolute path: foo"),
        _ => panic!("expected a URI error"),
    }
}

#[test]
fn uri_parse_normalizes() {
    let u = Uri::parse("HTTP://Example.com").unwrap();
    assert_eq!(u.as_str(), "http://example.com/");
    assert_eq!(u.scheme(), "http");
    assert_eq!(u.to_file_path(), None);
    assert!(Uri::parse("not a url").is_none());
}

#[test]
fn sha256_of_abc() {
    assert_eq!(
        hash_bytes(b"abc"),
        "ba7816bf8f01cfea414140de5dae2223b00361a396177a9cb410ff61f20015ad"
    );
    assert_eq!(
        hash_bytes(b""),
        "e3b0c44298fc1c149afbf4c8996fb92427ae41e4649b934ca495991b7852b855"
    );
}

#[test]
fn base64_standard_alphabet_with_padding() {
    assert_eq!(encode_base64(b"abc"), "YWJj");
    assert_eq!(encode_base64(b"ab"), "YWI=");
    assert_eq!(encode_base64(b""), "");
}

#[test]
fn start_time_is_utc_seconds() {
    assert_eq!(start_time_text(0), "1970-01-01 00:00:00");
    assert_eq!(start_time_text(86_400 + 3_661), "1970-01-02 01:01:01");
    assert_eq!(start_time_text(1_774_313_045), "2026-03-24 00:44:05");
    assert_eq!(start_time_text(u64::MAX), "1969-12-31 23:59:59");
    assert_eq!(start_time_text(1u64 << 62), "");
}

#[test]
fn dates_parse_step_back_and_format() {
    let d = Ymd::parse("2024-03-01").unwrap();
    assert_eq!(d, Ymd { year: 2024, month: 3, day: 1 });
    let p = d.previous().unwrap();
    assert_eq!(p, Ymd { year: 2024, month: 2, day: 29 });
    assert_eq!(p.format(), Some("2024-02-29".to_string()));
    assert!(Ymd::parse("2024-13-01").is_none());
    assert!(Ymd { year: 2023, month: 2, day: 30 }.format().is_none());
    assert!(Ymd { year: 2023, month: 2, day: 30 }.previous().is_none());
}

#[test]
fn error_messages_carry_their_prefix() {
    assert_eq!(WatcherError::NotifyError("x".to_string()).message(), "Watcher error: x");
    assert_eq!(WatcherError::ConfigError("x".to_string()).message(), "Configuration error: x");
    assert_eq!(WatcherError::IoError("x".to_string()).message(), "I/O error: x");
    assert_eq!(WatcherError::UnsupportedSystem("x".to_string()).message(), "Unsupported system: x");
    assert_eq!(WatcherError::HashError("x".to_string()).message(), "Hash computation error: x");
    assert_eq!(WatcherError::DatabaseError("x".to_string()).message(), "Database error: x");
    assert_eq!(
        WatcherError::CanonicalizeFailed("x".to_string()).message(),
        "Path canonicalize failed: x"
    );
    assert_eq!(WatcherError::UriFailed("x".to_string()).message(), "URI conversion failed: x");
    assert_eq!(WatcherError::Other("x".to_string()).message(), "Error: x");
}

#[test]
fn operation_names() {
    assert_eq!(OperationType::Create.as_str(), "Create");
    assert_eq!(OperationType::Modify.as_str(), "Modify");
    assert_eq!(OperationType::Move.as_str(), "Move");
    assert_eq!(OperationType::Open.as_str(), "Open");
    assert_eq!(OperationType::Append.as_str(), "Append");
    assert_eq!(OperationType::Write.as_str(), "Write");
}

#[test]
fn entry_line_is_comma_separated() {
    assert_eq!(
        format_entry("2026-03-24 01:02:03", "file:///a", "h1"),
        "2026-03-24 01:02:03,file:///a,h1"
    );
}

#[test]
fn text_helpers() {
    assert_eq!(decimal_exec(0), "0");
    assert_eq!(decimal_exec(18446744073709551615), "18446744073709551615");
    assert_eq!(replace_char_exec("a/b/c", '/', '_'), "a_b_c");
    assert_eq!(join_exec(&["a".to_string(), "b".to_string(), "c".to_string()], ", "), "a, b, c");
    assert_eq!(join_exec(&[], ", "), "");
    let t: String = trim_chars(&"  hi there \n".chars().collect::<Vec<char>>()).into_iter().collect();
    assert_eq!(t, "hi there");
    assert_eq!(fill_template(&["<", "|", ">"], &["a", "b"]), "<a|b>");
}

#[test]
fn events_name_their_operation() {
    let u = path_to_uri("/x").unwrap();
    let t = || "T".to_string();
    assert_eq!(CanonicalEvent::Create { uri: u.clone(), time: t() }.operation_type(), OperationType::Create);
    assert_eq!(CanonicalEvent::Modify { uri: u.clone(), time: t() }.operation_type(), OperationType::Modify);
    assert_eq!(
        CanonicalEvent::Move { src: u.clone(), dst: u.clone(), time: t() }.operation_type(),
        OperationType::Move
    );
    assert_eq!(
        CanonicalEvent::Write { uri: u.clone(), content: vec![], time: t() }.operation_type(),
        OperationType::Write
    );
    assert_eq!(CanonicalEvent::Open { uri: u.clone(), time: t() }.operation_type(), OperationType::Open);
    assert_eq!(CanonicalEvent::Append { uri: u, content: vec![1], time: t() }.operation_type(), OperationType::Append);
}

#[test]
fn calendar_edges() {
    let prev = |y: i32, m: u32, d: u32| Ymd { year: y, month: m, day: d }.previous();
    assert_eq!(prev(2024, 1, 1), Some(Ymd { year: 2023, month: 12, day: 31 }));
    assert_eq!(prev(2023, 3, 1), Some(Ymd { year: 2023, month: 2, day: 28 }));
    assert_eq!(prev(2000, 3, 1), Some(Ymd { year: 2000, month: 2, day: 29 }));
    assert_eq!(prev(1900, 3, 1), Some(Ymd { year: 1900, month: 2, day: 28 }));
    assert_eq!(prev(2023, 5, 1), Some(Ymd { year: 2023, month: 4, day: 30 }));
    assert_eq!(prev(-262143, 1, 1), None);
    assert_eq!(prev(-262143, 1, 2), Some(Ymd { year: -262143, month: 1, day: 1 }));
    assert_eq!(prev(2023, 2, 29), None);
    let fmt = |y: i32, m: u32, d: u32| Ymd { year: y, month: m, day: d }.format();
    assert_eq!(fmt(5, 1, 2), Some("0005-01-02".to_string()));
    assert_eq!(fmt(-1, 1, 1), Some("-0001-01-01".to_string()));
    assert_eq!(fmt(10000, 12, 31), Some("+10000-12-31".to_string()));
    assert_eq!(fmt(262142, 12, 31), Some("+262142-12-31".to_string()));
    assert_eq!(fmt(262143, 1, 1), None);
    assert_eq!(fmt(2023, 13, 1), None);
    assert_eq!(fmt(2023, 4, 31), None);
}

#[test]
fn observation_times_have_microseconds() {
    assert_eq!(observed_at_text(0, 0), Some("1970-01-01T00:00:00.000000".to_string()));
    assert_eq!(observed_at_text(1_774_313_045, 230_445), Some("2026-03-24T00:44:05.230445".to_string()));
    assert_eq!(observed_at_text(-1, 999_999), Some("1969-12-31T23:59:59.999999".to_string()));
    assert_eq!(observed_at_text(0, 1_000_000), None);
    assert_eq!(observed_at_text(1i64 << 62, 0), None);
}
