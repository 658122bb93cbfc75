use canis::adapter::{create_strategy, ConverterStrategy, EventAdapter};
use canis::error::WatcherError;
use canis::event::{CanonicalEvent, FileEvent, ProcessInfo};
use canis::inode::{HandleTable, InodeTable};
use canis::uri::{path_to_uri, Uri};
use canis::watcher::{
    convert_notify_event, notification_ignored, should_ignore, FileWatcher, NotifyEvent, NotifyKind,
    WatcherSystemType,
};

fn uri(p: &str) -> Uri {
    path_to_uri(p).unwrap()
}

fn t() -> String {
    "2026-01-02T03:04:05.000001".to_string()
}

fn sample_events() -> Vec<CanonicalEvent> {
    vec![
        CanonicalEvent::Create { uri: uri("/d/a"), time: t() },
        CanonicalEvent::Modify { uri: uri("/d/a"), time: t() },
        CanonicalEvent::Move { src: uri("/d/a"), dst: uri("/d/b"), time: t() },
        CanonicalEvent::Write { uri: uri("/d/b"), content: b"xy".to_vec(), time: t() },
        CanonicalEvent::Open { uri: uri("/d/b"), time: t() },
        CanonicalEvent::Append { uri: uri("/d/b"), content: b"z".to_vec(), time: t() },
    ]
}

fn describe(e: &Option<CanonicalEvent>) -> String {
    match e {
        None => "none".to_string(),
        Some(CanonicalEvent::Create { uri, .. }) => format!("create {}", uri.as_str()),
        Some(CanonicalEvent::Modify { uri, .. }) => format!("modify {}", uri.as_str()),
        Some(CanonicalEvent::Move { src, dst, .. }) => format!("move {} {}", src.as_str(), dst.as_str()),
        Some(CanonicalEvent::Write { uri, content, .. }) => format!("write {} {}", uri.as_str(), content.len()),
        Some(CanonicalEvent::Open { uri, .. }) => format!("open {}", uri.as_str()),
        Some(CanonicalEvent::Append { uri, .. }) => format!("append {}", uri.as_str()),
    }
}

#[test]
fn level_one_lowering() {
    let s = create_strategy(1);
    let got: Vec<String> = sample_events().into_iter().map(|e| describe(&s.convert(e))).collect();
    assert_eq!(
        got,
        vec![
            "create file:///d/a",
            "modify file:///d/a",
            "create file:///d/b",
            "modify file:///d/b",
            "none",
            "modify file:///d/b",
        ]
    );
}

#[test]
fn level_two_lowering_keeps_moves() {
    let s = create_strategy(2);
    let got: Vec<String> = sample_events().into_iter().map(|e| describe(&s.convert(e))).collect();
    assert_eq!(
        got,
        vec![
            "create file:///d/a",
            "modify file:///d/a",
            "move file:///d/a file:///d/b",
            "modify file:///d/b",
            "none",
            "modify file:///d/b",
        ]
    );
}

#[test]
fn level_three_passes_everything() {
    let s = create_strategy(3);
    let got: Vec<String> = sample_events().into_iter().map(|e| describe(&s.convert(e))).collect();
    assert_eq!(
        got,
        vec![
            "create file:///d/a",
            "modify file:///d/a",
            "move file:///d/a file:///d/b",
            "write file:///d/b 2",
            "open file:///d/b",
            "append file:///d/b",
        ]
    );
}

#[test]
fn lowering_twice_changes_nothing_more() {
    for level in 1..=3u8 {
        let s = create_strategy(level);
        for e in sample_events() {
            let once = s.convert(e);
            let twice = match &once {
                Some(x) => s.convert(x.clone()),
                None => None,
            };
            assert_eq!(describe(&once), describe(&twice));
        }
    }
}

#[test]
fn adapter_keeps_process_and_time() {
    let adapter = EventAdapter::new(1);
    let info = ProcessInfo { start_time: 5, pid: 10, ppid: 1, exe: "/bin/cp".to_string(), cmd: "[]".to_string() };
    let fe = FileEvent {
        event: CanonicalEvent::Append { uri: uri("/d/c"), content: b"tail".to_vec(), time: "T1".to_string() },
        process_info: Some(info),
    };
    let out = adapter.update(&fe).unwrap();
    match &out.event {
        CanonicalEvent::Modify { uri, time } => {
            assert_eq!(uri.as_str(), "file:///d/c");
            assert_eq!(time, "T1");
        }
        _ => panic!("expected a modification"),
    }
    assert_eq!(out.process_info.unwrap().pid, 10);
    let open = FileEvent { event: CanonicalEvent::Open { uri: uri("/d/c"), time: "T2".to_string() }, process_info: None };
    assert!(adapter.update(&open).is_none());
}

#[test]
fn ignore_paths_match_whole_components() {
    let ignore = vec!["/var/log".to_string(), "/tmp/canis".to_string()];
    assert!(should_ignore("/var/log/syslog", &ignore));
    assert!(should_ignore("/tmp/canis", &ignore));
    assert!(!should_ignore("/var/logs/x", &ignore));
    assert!(!should_ignore("/home/u/f", &ignore));
    assert!(!should_ignore("/var/log/x", &[]));
}

#[test]
fn system_types() {
    assert_eq!(WatcherSystemType::from_str("notify").unwrap(), WatcherSystemType::Notify);
    assert_eq!(WatcherSystemType::from_str("fuse").unwrap(), WatcherSystemType::Fuse);
    match WatcherSystemType::from_str("inotify") {
        Err(WatcherError::UnsupportedSystem(m)) => assert_eq!(m, "Unsupported system: inotify"),
        _ => panic!("expected an unsupported system"),
    }
    assert!(WatcherSystemType::Notify.supports_multiple_paths());
    assert!(!WatcherSystemType::Fuse.supports_multiple_paths());
    assert_eq!(FileWatcher::new("fuse").unwrap().system_type(), WatcherSystemType::Fuse);
    assert!(FileWatcher::new("").is_err());
}

#[test]
fn notifications_become_events() {
    let create = NotifyEvent { kind: NotifyKind::Create, paths: vec!["/w/a".to_string(), "rel".to_string(), "/w/b".to_string()] };
    let c = convert_notify_event(&create, "T");
    let got: Vec<String> = c.events.into_iter().map(|e| describe(&Some(e))).collect();
    assert_eq!(got, vec!["create file:///w/a", "create file:///w/b"]);
    assert_eq!(c.failures.len(), 1);
    assert_eq!(c.failures[0].message(), "URI conversion failed: Expected absolute path: rel");

    let modify = NotifyEvent { kind: NotifyKind::ModifyData, paths: vec!["/w/a".to_string()] };
    let got: Vec<String> = convert_notify_event(&modify, "T").events.into_iter().map(|e| describe(&Some(e))).collect();
    assert_eq!(got, vec!["modify file:///w/a"]);

    let rename = NotifyEvent { kind: NotifyKind::RenameBoth, paths: vec!["/w/a".to_string(), "/w/b".to_string()] };
    let got: Vec<String> = convert_notify_event(&rename, "T").events.into_iter().map(|e| describe(&Some(e))).collect();
    assert_eq!(got, vec!["move file:///w/a file:///w/b"]);

    let odd = NotifyEvent { kind: NotifyKind::RenameBoth, paths: vec!["/w/a".to_string()] };
    let r = convert_notify_event(&odd, "T");
    assert!(r.events.is_empty() && r.failures.is_empty());

    let rooted = NotifyEvent { kind: NotifyKind::Create, paths: vec!["/".to_string(), "/データ/a b".to_string()] };
    let r = convert_notify_event(&rooted, "T");
    assert_eq!(r.events.len(), 2);
    assert!(r.failures.is_empty());

    let other = NotifyEvent { kind: NotifyKind::Other, paths: vec!["/w/a".to_string()] };
    assert!(convert_notify_event(&other, "T").events.is_empty());
}

#[test]
fn ignored_notifications_give_nothing() {
    let w = FileWatcher::new("notify").unwrap();
    let ignore = vec!["/w/logs".to_string()];
    let ev = NotifyEvent { kind: NotifyKind::Create, paths: vec!["/w/logs/canis.log".to_string()] };
    assert!(notification_ignored(&ev, &ignore));
    let r = w.events_for(&ev, "T", &ignore);
    assert!(r.events.is_empty() && r.failures.is_empty());
    let ev2 = NotifyEvent { kind: NotifyKind::Create, paths: vec!["/w/data".to_string()] };
    assert!(!notification_ignored(&ev2, &ignore));
    assert_eq!(w.events_for(&ev2, "T", &ignore).events.len(), 1);
}

#[test]
fn inode_table_lookups_and_forgets() {
    let mut t = InodeTable::new("/src".to_string());
    assert_eq!(t.get_path(1), Some("/src".to_string()));
    assert_eq!(t.next_inode(), 2);
    let a = t.allocate_inode("/src/a".to_string());
    assert_eq!(a, 2);
    assert_eq!(t.allocate_inode("/src/a".to_string()), 2);
    let b = t.allocate_inode("/src/b".to_string());
    assert_eq!(b, 3);
    assert_eq!(t.get_path(3), Some("/src/b".to_string()));
    t.forget(2, 5);
    assert_eq!(t.get_path(2), None);
    assert_eq!(t.allocate_inode("/src/a".to_string()), 4);
    t.forget(1, 100);
    assert_eq!(t.get_path(1), Some("/src".to_string()));
    t.forget(99, 1);
    assert_eq!(t.get_path(99), None);
}

#[test]
fn handle_table_allocates_fresh_handles() {
    let mut h: HandleTable<String> = HandleTable::new();
    assert_eq!(h.next_handle(), 1);
    let a = h.allocate_fh("a".to_string());
    let b = h.allocate_fh("b".to_string());
    assert_eq!((a, b), (1, 2));
    assert_eq!(h.get_file_handle(2), Some(&"b".to_string()));
    h.release_fh(1);
    assert_eq!(h.get_file_handle(1), None);
    assert_eq!(h.allocate_fh("c".to_string()), 3);
}
