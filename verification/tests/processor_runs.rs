use canis::db::OperationType;
use canis::event::{CanonicalEvent, FileEvent, ProcessInfo};
use canis::processor::{ProcessorAction, ProcessorInput, ProcessorObserver};
use canis::uri::{path_to_uri, Uri};

const ABC_SHA256: &str = "ba7816bf8f01cfea414140de5dae2223b00361a396177a9cb410ff61f20015ad";

fn file_uri(p: &str) -> Uri {
    path_to_uri(p).unwrap()
}

fn event(e: CanonicalEvent, process_info: Option<ProcessInfo>) -> FileEvent {
    FileEvent { event: e, process_info }
}

#[test]
fn create_is_hashed_and_recorded() {
    let obs = ProcessorObserver::new();
    let ev = event(
        CanonicalEvent::Create { uri: file_uri("/tmp/data.csv"), time: "2026-02-01T02:03:04.230445".to_string() },
        None,
    );
    let (mut run, action) = obs.begin(&ev);
    match action {
        ProcessorAction::ReadFile { path } => assert_eq!(path, "/tmp/data.csv"),
        _ => panic!("expected a file read"),
    }
    match run.step(ProcessorInput::FileRead(Ok(b"abc".to_vec()))) {
        ProcessorAction::InsertDigest { digest } => {
            assert_eq!(digest.uri.as_str(), "file:///tmp/data.csv");
            assert_eq!(digest.hash, ABC_SHA256);
        }
        _ => panic!("expected a digest"),
    }
    match run.step(ProcessorInput::DigestInserted(7)) {
        ProcessorAction::InsertOperation { digest_id, operation } => {
            assert_eq!(digest_id, 7);
            assert_eq!(operation.timestamp, "2026-02-01T02:03:04.230445");
            assert_eq!(operation.operation, OperationType::Create);
            assert_eq!(operation.uri.as_str(), "file:///tmp/data.csv");
            assert!(operation.src_path.is_none());
        }
        _ => panic!("expected an operation"),
    }
    assert!(matches!(run.step(ProcessorInput::OperationInserted(9)), ProcessorAction::Finish));
    assert!(run.is_done());
}

#[test]
fn modify_with_process_records_the_process() {
    let obs = ProcessorObserver::new();
    let info = ProcessInfo { start_time: 0, pid: 42, ppid: 1, exe: "/usr/bin/vim".to_string(), cmd: "[\"vim\"]".to_string() };
    let ev = event(CanonicalEvent::Modify { uri: file_uri("/w/a.txt"), time: "t".to_string() }, Some(info));
    let (mut run, _) = obs.begin(&ev);
    run.step(ProcessorInput::FileRead(Ok(Vec::new())));
    match run.step(ProcessorInput::DigestInserted(1)) {
        ProcessorAction::InsertOperation { operation, .. } => assert_eq!(operation.operation, OperationType::Modify),
        _ => panic!("expected an operation"),
    }
    match run.step(ProcessorInput::OperationInserted(5)) {
        ProcessorAction::InsertProcess { operation_id, process } => {
            assert_eq!(operation_id, 5);
            assert_eq!(process.starttime, "1970-01-01 00:00:00");
            assert_eq!(process.pid, 42);
            assert_eq!(process.ppid, 1);
            assert_eq!(process.exe, "/usr/bin/vim");
            assert_eq!(process.cmd, "[\"vim\"]");
        }
        _ => panic!("expected a process row"),
    }
    match run.step(ProcessorInput::ProcessInserted(Err("locked".to_string()))) {
        ProcessorAction::Report { message } => assert_eq!(message, "insert_process error: locked"),
        _ => panic!("expected a report"),
    }
}

#[test]
fn move_inherits_recorded_hash() {
    let obs = ProcessorObserver::new();
    let ev = event(
        CanonicalEvent::Move { src: file_uri("/w/old.txt"), dst: file_uri("/w/new.txt"), time: "t1".to_string() },
        None,
    );
    let (mut run, action) = obs.begin(&ev);
    match action {
        ProcessorAction::LookupLatestHash { uri } => assert_eq!(uri, "file:///w/old.txt"),
        _ => panic!("expected a lookup"),
    }
    match run.step(ProcessorInput::LatestHash(Ok(Some("h0".to_string())))) {
        ProcessorAction::InsertDigest { digest } => {
            assert_eq!(digest.uri.as_str(), "file:///w/new.txt");
            assert_eq!(digest.hash, "h0");
        }
        _ => panic!("expected a digest"),
    }
    match run.step(ProcessorInput::DigestInserted(3)) {
        ProcessorAction::InsertOperation { digest_id, operation } => {
            assert_eq!(digest_id, 3);
            assert_eq!(operation.operation, OperationType::Move);
            assert_eq!(operation.uri.as_str(), "file:///w/new.txt");
            assert_eq!(operation.src_path.unwrap().as_str(), "file:///w/old.txt");
        }
        _ => panic!("expected an operation"),
    }
}

#[test]
fn move_without_history_hashes_destination() {
    let obs = ProcessorObserver::new();
    let ev = event(
        CanonicalEvent::Move { src: file_uri("/w/old.txt"), dst: file_uri("/w/new.txt"), time: "t1".to_string() },
        None,
    );
    let (mut run, _) = obs.begin(&ev);
    match run.step(ProcessorInput::LatestHash(Ok(None))) {
        ProcessorAction::ReadFile { path } => assert_eq!(path, "/w/new.txt"),
        _ => panic!("expected a read"),
    }
    match run.step(ProcessorInput::FileRead(Ok(b"abc".to_vec()))) {
        ProcessorAction::InsertDigest { digest } => assert_eq!(digest.hash, ABC_SHA256),
        _ => panic!("expected a digest"),
    }
    match run.step(ProcessorInput::DigestInserted(4)) {
        ProcessorAction::InsertOperation { operation, .. } => {
            assert_eq!(operation.operation, OperationType::Move);
            assert_eq!(operation.src_path.unwrap().as_str(), "file:///w/old.txt");
        }
        _ => panic!("expected an operation"),
    }
}

#[test]
fn failures_are_reported() {
    let obs = ProcessorObserver::new();
    let http = Uri::parse("http://example.com/x").unwrap();
    let (_, action) = obs.begin(&event(CanonicalEvent::Create { uri: http, time: "t".to_string() }, None));
    match action {
        ProcessorAction::Report { message } => assert_eq!(
            message,
            "Unexpected error while processing: http://example.com/x - Unsupported system: Unsupported scheme for hash computation: http"
        ),
        _ => panic!("expected a report"),
    }

    let (mut run, _) = obs.begin(&event(CanonicalEvent::Modify { uri: file_uri("/w/a"), time: "t".to_string() }, None));
    match run.step(ProcessorInput::FileRead(Err("No such file".to_string()))) {
        ProcessorAction::Report { message } => assert_eq!(
            message,
            "Unexpected error while processing: file:///w/a - Hash computation error: Failed to read file /w/a: No such file"
        ),
        _ => panic!("expected a report"),
    }
    assert!(run.is_done());

    let ev = event(CanonicalEvent::Move { src: file_uri("/w/s"), dst: file_uri("/w/d"), time: "t".to_string() }, None);
    let (mut run, _) = obs.begin(&ev);
    match run.step(ProcessorInput::LatestHash(Err("disk I/O error".to_string()))) {
        ProcessorAction::Report { message } => {
            assert_eq!(message, "Unexpected error while processing: file:///w/s - disk I/O error")
        }
        _ => panic!("expected a report"),
    }
}

#[test]
fn unrecorded_operations_finish_at_once() {
    let obs = ProcessorObserver::new();
    for e in [
        CanonicalEvent::Open { uri: file_uri("/w/a"), time: "t".to_string() },
        CanonicalEvent::Append { uri: file_uri("/w/a"), content: b"x".to_vec(), time: "t".to_string() },
        CanonicalEvent::Write { uri: file_uri("/w/a"), content: b"x".to_vec(), time: "t".to_string() },
    ] {
        let (mut run, action) = obs.begin(&event(e, None));
        assert!(matches!(action, ProcessorAction::Finish));
        assert!(run.is_done());
        assert!(matches!(run.step(ProcessorInput::DigestInserted(1)), ProcessorAction::Finish));
    }
}

#[test]
fn unexpected_input_ends_the_run() {
    let obs = ProcessorObserver::new();
    let (mut run, _) = obs.begin(&event(CanonicalEvent::Create { uri: file_uri("/w/a"), time: "t".to_string() }, None));
    assert!(matches!(run.step(ProcessorInput::DigestInserted(1)), ProcessorAction::Finish));
    assert!(run.is_done());
}
