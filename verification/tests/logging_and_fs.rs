use canis::error::WatcherError;
use canis::event::CanonicalEvent;
use canis::logger::Logger;
use std::cell::RefCell;
use canis::logger::{line_hash_exec, split_lines_exec, ReverseScan, ScanOutcome, BUFFER_SIZE};
use canis::passthrough::{
    create_request, epoch_parts, file_kind, open_request, permission_bits, process_info_from,
    rename_event, request_event, system_time_to_tuple, unmount_next, watch_dir_name, write_event,
    FileKind, OpenFlagBits, OpenRequest, PathEventKind, UnmountStep,
};
use canis::strategy::conversion::{create_strategy as conversion_strategy, ConversionStrategy};
use canis::strategy::processor::{create_strategy as processor_strategy, L1ProcessorStrategy, L3ProcessorStrategy, ProcessorChoice};
use canis::strategy::watcher::{create_watcher_strategy, NotifyWatcherStrategy, WatcherCapabilities, WatcherStrategyChoice};
use canis::uri::path_to_uri;
use canis::watcher::{NotifyEvent, NotifyKind};

/// A logger that keeps the lines it is given and searches them.
struct MemoryLog(RefCell<Vec<u8>>);

impl Logger for &MemoryLog {
    fn log(&self, message: &str) {
        let mut b = self.0.borrow_mut();
        b.extend_from_slice(message.as_bytes());
        b.push(b'\n');
    }

    fn find_latest_hash(&self, path: &str) -> Result<Option<String>, WatcherError> {
        Ok(scan(&self.0.borrow(), path))
    }
}

/// Runs the backward search over an in-memory log, as the application does over the file.
fn scan(log: &[u8], target: &str) -> Option<String> {
    let mut s = ReverseScan::new(log.len() as u64);
    loop {
        let (off, len) = match s.next_read() {
            Some(r) => r,
            None => return None,
        };
        let chunk = &log[off as usize..off as usize + len];
        match s.feed(chunk, target) {
            ScanOutcome::Found(h) => return Some(h),
            ScanOutcome::NotFound => return None,
            ScanOutcome::Continue => {}
        }
    }
}

#[test]
fn latest_hash_is_found_from_the_end() {
    let log = b"t1,h1,/a\nt2,h2,/b\nt3,h3,/a\n";
    assert_eq!(scan(log, "/a"), Some("h3".to_string()));
    assert_eq!(scan(log, "/b"), Some("h2".to_string()));
    assert_eq!(scan(log, "/c"), None);
    assert_eq!(scan(b"", "/a"), None);
}

#[test]
fn paths_are_compared_trimmed() {
    assert_eq!(scan(b"t1,h1,  /a  \r\n", "/a"), Some("h1".to_string()));
    assert_eq!(scan(b"t1,h1\n", "/a"), None);
    assert_eq!(scan(b"t1,h1,/a,extra\n", "/a"), None);
    assert_eq!(scan(b"t1,h1,/a,extra\n", "/a,extra"), Some("h1".to_string()));
}

#[test]
fn lines_cut_by_blocks_are_joined() {
    let mut log: Vec<u8> = Vec::new();
    log.extend_from_slice(b"t0,first,/target\n");
    let filler = b"2026-01-01T00:00:00,ffffffffffffffffffffffffffffffffffffffffffffffffffffffffffffffff,/other/file\n";
    while log.len() < 3 * BUFFER_SIZE {
        log.extend_from_slice(filler);
    }
    assert_eq!(scan(&log, "/target"), Some("first".to_string()));
    log.extend_from_slice(b"t9,latest,/target\n");
    assert_eq!(scan(&log, "/target"), Some("latest".to_string()));
    assert_eq!(scan(&log, "/absent"), None);
}

#[test]
fn block_reads_walk_back_from_the_end() {
    let s = ReverseScan::new(BUFFER_SIZE as u64 + 10);
    assert_eq!(s.next_read(), Some((10, BUFFER_SIZE)));
    assert_eq!(ReverseScan::new(5).next_read(), Some((0, 5)));
    assert_eq!(ReverseScan::new(0).next_read(), None);
}

#[test]
fn line_helpers() {
    let cs: Vec<char> = "a\nb\n".chars().collect();
    let lines = split_lines_exec(&cs);
    let lines: Vec<String> = lines.into_iter().map(|l| l.into_iter().collect()).collect();
    assert_eq!(lines, vec!["a", "b", ""]);
    let line: Vec<char> = "t,h,/p".chars().collect();
    let target: Vec<char> = "/p".chars().collect();
    assert_eq!(line_hash_exec(&line, &target).map(|h| h.into_iter().collect::<String>()), Some("h".to_string()));
}

fn describe(e: &CanonicalEvent) -> String {
    match e {
        CanonicalEvent::Create { uri, time } => format!("create {} {}", uri.as_str(), time),
        CanonicalEvent::Modify { uri, time } => format!("modify {} {}", uri.as_str(), time),
        CanonicalEvent::Move { src, dst, time } => format!("move {} {} {}", src.as_str(), dst.as_str(), time),
        CanonicalEvent::Write { uri, content, time } => format!("write {} {:?} {}", uri.as_str(), content, time),
        CanonicalEvent::Open { uri, time } => format!("open {} {}", uri.as_str(), time),
        CanonicalEvent::Append { uri, content, time } => format!("append {} {:?} {}", uri.as_str(), content, time),
    }
}

#[test]
fn file_system_requests_report_events() {
    let ignore = vec!["/src/.cache".to_string()];
    let e = request_event(PathEventKind::Create, "/src/a", &ignore, "T").unwrap().unwrap();
    assert_eq!(describe(&e), "create file:///src/a T");
    let e = request_event(PathEventKind::Modify, "/src/a", &ignore, "T").unwrap().unwrap();
    assert_eq!(describe(&e), "modify file:///src/a T");
    let e = request_event(PathEventKind::Open, "/src/a", &ignore, "T").unwrap().unwrap();
    assert_eq!(describe(&e), "open file:///src/a T");
    assert!(request_event(PathEventKind::Open, "/src/.cache/x", &ignore, "T").is_none());
    match request_event(PathEventKind::Open, "rel", &ignore, "T") {
        Some(Err(e)) => assert_eq!(e.message(), "URI conversion failed: Expected absolute path: rel"),
        _ => panic!("expected a URI error"),
    }
}

#[test]
fn writes_carry_their_bytes_unless_appending() {
    let e = write_event("/src/a", &[], "T", b"hi", 0o1, 0o2000).unwrap().unwrap();
    assert_eq!(describe(&e), "write file:///src/a [104, 105] T");
    let e = write_event("/src/a", &[], "T", b"hi", 0o2001, 0o2000).unwrap().unwrap();
    assert_eq!(describe(&e), "append file:///src/a [104, 105] T");
    assert!(write_event("/src/a", &["/src".to_string()], "T", b"hi", 0, 0o2000).is_none());
}

#[test]
fn renames_become_moves() {
    let (e, f) = rename_event("/src/a", "/src/b", &[], "T");
    assert_eq!(describe(&e.unwrap()), "move file:///src/a file:///src/b T");
    assert!(f.is_empty());
    let (e, f) = rename_event("/src/a", "/src/.cache/b", &["/src/.cache".to_string()], "T");
    assert!(e.is_none() && f.is_empty());
    let (e, f) = rename_event("a", "b", &[], "T");
    assert!(e.is_none());
    let msgs: Vec<String> = f.iter().map(|x| x.message()).collect();
    assert_eq!(
        msgs,
        vec![
            "URI conversion failed: Expected absolute path: a",
            "URI conversion failed: Expected absolute path: b",
        ]
    );
}

fn linux_bits() -> OpenFlagBits {
    OpenFlagBits { accmode: 0o3, rdonly: 0, wronly: 1, rdwr: 2, append: 0o2000, trunc: 0o1000, excl: 0o200 }
}

#[test]
fn open_and_create_flags() {
    let b = linux_bits();
    assert_eq!(open_request(0, &b), OpenRequest { read: true, write: false, append: false, truncate: false });
    assert_eq!(open_request(1 | 0o2000, &b), OpenRequest { read: false, write: true, append: true, truncate: false });
    assert_eq!(open_request(2 | 0o1000, &b), OpenRequest { read: true, write: true, append: false, truncate: true });
    let c = create_request(0o200 | 0o1000 | 1, &b);
    assert!(c.create_new && c.truncate);
    let c = create_request(1, &b);
    assert!(!c.create_new && !c.truncate);
}

#[test]
fn process_descriptions() {
    let p = process_info_from(42, 100, Some(1), Some("/usr/bin/vim".to_string()), &vec!["vim".to_string(), "a b".to_string()]);
    assert_eq!((p.pid, p.ppid, p.start_time), (42, 1, 100));
    assert_eq!(p.exe, "/usr/bin/vim");
    assert_eq!(p.cmd, "[\"vim\",\"a b\"]");
    let q = process_info_from(7, 0, None, None, &vec![]);
    assert_eq!((q.ppid, q.exe.as_str(), q.cmd.as_str()), (-1, "", "[]"));
    let r = process_info_from(7, 0, None, None, &vec!["quote\"d".to_string()]);
    assert_eq!(r.cmd, "[\"quote\\\"d\"]");
}

#[test]
fn file_attributes() {
    assert_eq!(file_kind(true, true), FileKind::Directory);
    assert_eq!(file_kind(false, true), FileKind::Symlink);
    assert_eq!(file_kind(false, false), FileKind::RegularFile);
    assert_eq!(permission_bits(0o100644), 0o644);
    assert_eq!(permission_bits(0o4755), 0o4755);
    assert_eq!(epoch_parts(Some((5, 7))), (5, 7));
    assert_eq!(epoch_parts(None), (0, 0));
    let t = std::time::UNIX_EPOCH + std::time::Duration::new(12, 345);
    assert_eq!(system_time_to_tuple(t), (12, 345));
    assert_eq!(system_time_to_tuple(std::time::UNIX_EPOCH - std::time::Duration::new(1, 0)), (0, 0));
}

#[test]
fn unmount_retries_five_times_then_forces() {
    assert_eq!(unmount_next(1, true), UnmountStep::Done);
    for a in 1..5u32 {
        assert_eq!(unmount_next(a, false), UnmountStep::RetryAfterDelay { attempt: a + 1 });
    }
    assert_eq!(unmount_next(5, false), UnmountStep::Force);
    assert_eq!(watch_dir_name("/data/src"), "/data/src.watch");
}

#[test]
fn strategies_by_level() {
    let uri = path_to_uri("/s/a").unwrap();
    let ev = CanonicalEvent::Move { src: path_to_uri("/s/b").unwrap(), dst: uri.clone(), time: "T".to_string() };
    let l1 = conversion_strategy(1);
    assert_eq!(describe(&l1.convert(ev.clone()).unwrap()), "modify file:///s/a T");
    let l2 = conversion_strategy(2);
    assert_eq!(describe(&l2.convert(ev.clone()).unwrap()), "move file:///s/b file:///s/a T");
    let open = CanonicalEvent::Open { uri: uri.clone(), time: "T".to_string() };
    assert!(l1.convert(open.clone()).is_none());
    assert!(conversion_strategy(3).convert(open).is_some());

    let log = MemoryLog(RefCell::new(Vec::new()));
    assert!(matches!(processor_strategy(1, &log), ProcessorChoice::L1(_)));
    assert!(matches!(processor_strategy(3, &log), ProcessorChoice::L3(_)));
    let p1 = L1ProcessorStrategy::new(&log);
    let create = CanonicalEvent::Create { uri: uri.clone(), time: "T".to_string() };
    assert_eq!(p1.log_line(&create, "h"), Some("T,h,/s/a".to_string()));
    assert_eq!(
        p1.log_line_for_content(&create, b"abc"),
        Some("T,ba7816bf8f01cfea414140de5dae2223b00361a396177a9cb410ff61f20015ad,/s/a".to_string())
    );
    let web = CanonicalEvent::Create { uri: canis::uri::Uri::parse("http://example.com/x").unwrap(), time: "T".to_string() };
    assert!(p1.log_line(&web, "h").is_none());
    assert_eq!(p1.hash_target(&create).unwrap().as_str(), "file:///s/a");
    assert!(p1.log_line(&CanonicalEvent::Open { uri: uri.clone(), time: "T".to_string() }, "h").is_none());
    let p3 = L3ProcessorStrategy::new(&log);
    assert_eq!(p3.log_line(&create, None), "CREATE /s/a time=T");
    assert_eq!(p3.log_line(&web, None), "CREATE http://example.com/x time=T");
    let open = CanonicalEvent::Open { uri: uri.clone(), time: "T".to_string() };
    assert_eq!(p3.log_line(&open, Some(12)), "OPEN /s/a pid=Some(12) time=T");
    assert_eq!(p3.log_line(&open, None), "OPEN /s/a pid=None time=T");
    let w = CanonicalEvent::Write { uri, content: vec![1, 2, 3], time: "T".to_string() };
    assert_eq!(p3.log_line(&w, None), "WRITE /s/a time=T size=3");
}

#[test]
fn watcher_strategies() {
    let c = WatcherCapabilities::for_system("notify").unwrap();
    assert!(c.supports_multiple_paths);
    assert_eq!(c.system_name, "notify");
    assert!(!WatcherCapabilities::for_system("fuse").unwrap().supports_multiple_paths);
    assert!(WatcherCapabilities::for_system("x").is_err());
    assert!(matches!(create_watcher_strategy("notify"), Ok(WatcherStrategyChoice::Notify(_))));
    assert!(matches!(create_watcher_strategy("fuse"), Ok(WatcherStrategyChoice::Fuse(_))));
    assert!(create_watcher_strategy("other").is_err());
    let n = NotifyWatcherStrategy::new();
    let ev = NotifyEvent { kind: NotifyKind::ModifyData, paths: vec!["/w/x".to_string()] };
    let out = n.convert_to_canonical(&ev, "T");
    assert_eq!(out.len(), 1);
    assert_eq!(describe(&out[0]), "modify file:///w/x T");
    let ren = NotifyEvent { kind: NotifyKind::RenameBoth, paths: vec!["/w/x".to_string(), "/w/y".to_string()] };
    assert!(n.convert_to_canonical(&ren, "T").is_empty());
}

#[test]
fn detailed_console_lines() {
    let log = MemoryLog(RefCell::new(Vec::new()));
    let p3 = L3ProcessorStrategy::new(&log);
    let uri = path_to_uri("/s/a").unwrap();
    let w = CanonicalEvent::Write { uri: uri.clone(), content: b"  hello  ".to_vec(), time: "T".to_string() };
    assert_eq!(
        p3.console_lines(&w, None),
        vec!["✏️ Write /s/a (T) [9バイト]".to_string(), "   内容: hello".to_string()]
    );
    let empty = CanonicalEvent::Write { uri: uri.clone(), content: vec![], time: "T".to_string() };
    assert_eq!(p3.console_lines(&empty, None), vec!["✏️ Write /s/a (T) [0バイト]".to_string()]);
    let open = CanonicalEvent::Open { uri, time: "T".to_string() };
    assert_eq!(p3.console_lines(&open, Some(3)), vec!["📂 Open /s/a PID=Some(3) (T)".to_string()]);
}

#[test]
fn strategy_descriptions() {
    assert_eq!(conversion_strategy(1).description(), "L1処理部: L2以上のイベントをL1に正規化");
    assert_eq!(conversion_strategy(2).description(), "L2処理部: L3以上のイベントをL2に正規化");
    assert_eq!(conversion_strategy(3).description(), "L3処理部: すべてのイベントをそのまま処理");
}

#[test]
fn recorded_lines_go_to_the_logger_and_are_found_again() {
    let log = MemoryLog(RefCell::new(Vec::new()));
    let p1 = L1ProcessorStrategy::new(&log);
    let a = CanonicalEvent::Create { uri: path_to_uri("/data/a.csv").unwrap(), time: "T1".to_string() };
    let b = CanonicalEvent::Modify { uri: path_to_uri("/data/b.csv").unwrap(), time: "T2".to_string() };
    let a2 = CanonicalEvent::Modify { uri: path_to_uri("/data/a.csv").unwrap(), time: "T3".to_string() };
    for (event, content) in [(&a, &b"abc"[..]), (&b, &b""[..]), (&a2, &b"abcd"[..])] {
        let line = p1.log_line_for_content(event, content).unwrap();
        p1.logger().log(&line);
    }
    assert!(p1
        .log_line_for_content(&CanonicalEvent::Open { uri: path_to_uri("/data/a.csv").unwrap(), time: "T4".to_string() }, b"x")
        .is_none());
    assert_eq!(
        String::from_utf8(log.0.borrow().clone()).unwrap(),
        "T1,ba7816bf8f01cfea414140de5dae2223b00361a396177a9cb410ff61f20015ad,/data/a.csv\n\
         T2,e3b0c44298fc1c149afbf4c8996fb92427ae41e4649b934ca495991b7852b855,/data/b.csv\n\
         T3,88d4266fd4e6338d13b845fcf289579d209c897823b9217da3e161936f031589,/data/a.csv\n"
    );
    assert_eq!(
        (&log).find_latest_hash("/data/a.csv").unwrap(),
        Some("88d4266fd4e6338d13b845fcf289579d209c897823b9217da3e161936f031589".to_string())
    );
    let p3 = L3ProcessorStrategy::new(&log);
    let line = p3.log_line(&a, Some(7));
    assert_eq!(line, "CREATE /data/a.csv time=T1");
    p3.logger().log(&line);
    assert!(String::from_utf8(log.0.borrow().clone()).unwrap().ends_with("CREATE /data/a.csv time=T1\n"));
}

#[test]
fn multibyte_characters_cut_by_a_block_are_kept() {
    let target = "/データ/ファイル.txt";
    let line = format!("t,h1,{}\n", target);
    let mut prefix: Vec<u8> = Vec::new();
    while prefix.len() < 3 * BUFFER_SIZE {
        prefix.extend_from_slice(b"x,y,/other\n");
    }
    // Move the boundary of the last block through every byte of the line.
    for cut in 0..line.len() {
        let suffix_len = cut + BUFFER_SIZE - line.len();
        let mut log = prefix.clone();
        log.extend_from_slice(line.as_bytes());
        log.extend(std::iter::repeat(b' ').take(suffix_len - 1));
        log.push(b'\n');
        assert_eq!(log.len() - BUFFER_SIZE, prefix.len() + cut);
        assert_eq!(scan(&log, target), Some("h1".to_string()), "cut at byte {}", cut);
    }
}
