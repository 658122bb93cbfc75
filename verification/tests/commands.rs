use canis::cli::{InitArgs, PublishArgs, StartArgs};
use canis::commands::init::{
    config_path_text, default_windows_binary, format_path_list, init_plan, render_config,
    render_systemd_start_unit, InitPlan,
};
use canis::commands::publish::{
    bearer, commit_message, contents_url, daily_hash, daily_hash_input, encoded_content,
    hash_filename, publish_date, resolve_database_path, resolve_publish_date, resolve_publish_target,
};
use canis::commands::start::{
    config_source, processor_level, resolve_ignore_paths, resolve_start_database,
    resolve_start_settings, ConfigSource,
};
use canis::commands::stop::{
    parse_pid_file, FailReason, ProbeOutcome, ProgressMark, StopAction, StopInput, StopRun,
};
use canis::config::{BasicSettings, Config};
use canis::dates::Ymd;
use canis::error::WatcherError;

fn start_args(watcher: Option<&str>, targets: Option<Vec<&str>>, logfile: Option<&str>) -> StartArgs {
    StartArgs {
        config: None,
        watcher: watcher.map(|s| s.to_string()),
        targets: targets.map(|v| v.into_iter().map(|s| s.to_string()).collect()),
        logfile: logfile.map(|s| s.to_string()),
        ignore: None,
        daemon: false,
    }
}

fn settings() -> BasicSettings {
    BasicSettings {
        watcher: Some("fuse".to_string()),
        targets: Some(vec!["/cfg/t".to_string()]),
        ignore: Some(vec!["/cfg/ignored".to_string()]),
        logfile: Some("/cfg/canis.log".to_string()),
        hashdir: Some("hashes".to_string()),
        token: Some("tok".to_string()),
        repo: Some("evidence".to_string()),
        dbfile: Some("/cfg/canis.db".to_string()),
    }
}

fn empty_settings() -> BasicSettings {
    BasicSettings {
        watcher: None,
        targets: None,
        ignore: None,
        logfile: None,
        hashdir: None,
        token: None,
        repo: None,
        dbfile: None,
    }
}

fn publish_args() -> PublishArgs {
    PublishArgs { config: None, date: "today".to_string(), dbfile: None, hashdir: None, token: None, repo: None }
}

fn init_args() -> InitArgs {
    InitArgs {
        config: None,
        watcher: None,
        targets: None,
        logfile: None,
        ignore: None,
        hashdir: None,
        dbfile: None,
        token: None,
        repo: None,
        date: None,
        schedule: None,
        daemon_out: None,
        daemon_err: None,
        start: None,
        binary: None,
        publish: None,
    }
}

#[test]
fn complete_start_arguments_need_no_configuration() {
    let full = start_args(Some("notify"), Some(vec!["/a"]), Some("/l.log"));
    assert!(full.is_complete());
    assert!(matches!(config_source(&full), ConfigSource::Skip));
    assert!(!start_args(Some(""), Some(vec!["/a"]), Some("/l.log")).is_complete());
    assert!(!start_args(Some("notify"), Some(vec![]), Some("/l.log")).is_complete());
    assert!(!start_args(Some("notify"), Some(vec!["/a", ""]), Some("/l.log")).is_complete());
    assert!(!start_args(Some("notify"), Some(vec!["/a"]), None).is_complete());
    let mut partial = start_args(None, None, None);
    assert!(matches!(config_source(&partial), ConfigSource::Xdg));
    partial.config = Some("/etc/canis.toml".to_string());
    match config_source(&partial) {
        ConfigSource::File(p) => assert_eq!(p, "/etc/canis.toml"),
        _ => panic!("expected the named file"),
    }
}

#[test]
fn start_settings_prefer_the_command_line() {
    let s = settings();
    let args = start_args(Some("notify"), None, None);
    let r = resolve_start_settings(&args, Some(&s), None).unwrap();
    assert_eq!(r.watcher_system, "notify");
    assert_eq!(r.targets, vec!["/cfg/t".to_string()]);
    assert_eq!(r.logfile, "/cfg/canis.log");
    let full = start_args(Some("notify"), Some(vec!["/a"]), Some("/l.log"));
    let r = resolve_start_settings(&full, Some(&s), None).unwrap();
    assert_eq!((r.watcher_system.as_str(), r.targets.len(), r.logfile.as_str()), ("notify", 1, "/l.log"));
}

#[test]
fn start_settings_report_the_first_missing_one() {
    let none = start_args(None, None, None);
    let e = resolve_start_settings(&none, None, Some("/d.log".to_string())).err().unwrap();
    assert_eq!(e.message(), "Configuration error: Failed to determine watcher");
    let w = start_args(Some("notify"), None, None);
    let e = resolve_start_settings(&w, Some(&empty_settings()), None).err().unwrap();
    assert_eq!(e.message(), "Configuration error: targets not specified");
    let wt = start_args(Some("notify"), Some(vec!["/a"]), None);
    let e = resolve_start_settings(&wt, None, None).err().unwrap();
    assert_eq!(e.message(), "Configuration error: Failed to determine log file path");
    let r = resolve_start_settings(&wt, None, Some("/d.log".to_string())).unwrap();
    assert_eq!(r.logfile, "/d.log");
}

#[test]
fn ignore_paths_put_the_log_first() {
    let s = settings();
    let args = start_args(None, None, None);
    let r = resolve_ignore_paths(&args, Some(&s), "/l.log").unwrap();
    assert_eq!(r, vec!["/l.log".to_string(), "/cfg/ignored".to_string()]);
    let mut args2 = start_args(None, None, None);
    args2.ignore = Some(vec!["/x".to_string(), "/y".to_string()]);
    let r = resolve_ignore_paths(&args2, Some(&s), "/l.log").unwrap();
    assert_eq!(r, vec!["/l.log".to_string(), "/x".to_string(), "/y".to_string()]);
    let r = resolve_ignore_paths(&args, None, "/l.log").unwrap();
    assert_eq!(r, vec!["/l.log".to_string()]);
}

#[test]
fn fuse_runs_the_detailed_processor() {
    assert_eq!(processor_level("fuse"), 3);
    assert_eq!(processor_level("notify"), 1);
}

#[test]
fn missing_configuration_message() {
    assert_eq!(
        Config::not_found("/etc/canis.toml").message(),
        "Configuration error: Configuration file not found: /etc/canis.toml"
    );
}

#[test]
fn init_generates_everything_by_default() {
    let mut a = init_args();
    assert_eq!(init_plan(&a), InitPlan { config: true, start: true, publish: true });
    a.start = Some("/s.service".to_string());
    assert_eq!(init_plan(&a), InitPlan { config: false, start: true, publish: false });
}

#[test]
fn init_paths_use_forward_slashes() {
    assert_eq!(config_path_text("C:\\data\\x"), "C:/data/x");
    assert_eq!(
        format_path_list(&["C:\\a".to_string(), "/b".to_string()]),
        "\"C:/a\", \"/b\""
    );
    assert_eq!(format_path_list(&[]), "");
    assert_eq!(default_windows_binary("alice"), "C:\\Users\\alice\\bin\\canis.exe");
}

#[test]
fn init_templates_hold_the_values() {
    let c = render_config("notify", "\"/a\"", "\"/b\"", "/l.log", "/db", "tok", "hashes", "repo");
    assert!(c.starts_with("[basic_settings]\n"));
    assert!(c.contains("watcher = \"notify\"\n"));
    assert!(c.contains("targets = [\"/a\"]\n"));
    assert!(c.contains("ignore = [\"/b\"]\n"));
    assert!(c.contains("logfile = \"/l.log\"\n"));
    assert!(c.contains("dbfile = \"/db\"\n"));
    assert!(c.contains("token = \"tok\"\n"));
    assert!(c.contains("hashdir = \"hashes\"\n"));
    assert!(c.ends_with("repo = \"repo\"\n"));
    let u = render_systemd_start_unit("/home/user/bin/canis", "/home/user/.config/canis/config.toml");
    assert_eq!(
        u,
        "[Unit]\nDescription=canis\n\n[Service]\nType=simple\nExecStart=/home/user/bin/canis start --config /home/user/.config/canis/config.toml\nRestart=always\n\n[Install]\nWantedBy=default.target\n"
    );
}

#[test]
fn publish_dates() {
    let today = Ymd { year: 2026, month: 3, day: 1 };
    let d = resolve_publish_date("today", today).unwrap();
    assert_eq!(d, today);
    let d = resolve_publish_date("yesterday", today).unwrap();
    assert_eq!(d, Ymd { year: 2026, month: 2, day: 28 });
    let d = resolve_publish_date("2025-12-31", today).unwrap();
    assert_eq!(d, Ymd { year: 2025, month: 12, day: 31 });
    match resolve_publish_date("31/12/2025", today) {
        Err(WatcherError::Other(m)) => {
            assert_eq!(m, "Invalid date format: 31/12/2025 (expected: YYYY-MM-DD, e.g. 2026-03-24)")
        }
        _ => panic!("expected a date error"),
    }
    assert!(publish_date("yesterday", today).unwrap().is_ok());
}

#[test]
fn daily_hash_over_entry_lines() {
    let entries = vec![
        "2026-03-24 01:02:03,file:///a,h1".to_string(),
        "2026-03-24 02:00:00,file:///b,h2".to_string(),
    ];
    assert_eq!(
        daily_hash_input(&entries),
        "2026-03-24 01:02:03,file:///a,h1\n2026-03-24 02:00:00,file:///b,h2\n"
    );
    assert_eq!(
        daily_hash(&entries).unwrap(),
        "87b50baee5edcde9183895c560254ecbc404f4398fdb02cec53b6fa0242696b8"
    );
    assert_eq!(
        daily_hash(&["x".to_string()]).unwrap(),
        "73cb3858a687a8494ca3323053016282f3dad39d42cf62ca4e79dda2aac7d9ac"
    );
    match daily_hash(&[]) {
        Err(WatcherError::HashError(m)) => assert_eq!(m, "No entries found for hash calculation"),
        _ => panic!("expected a hash error"),
    }
}

#[test]
fn publication_texts() {
    assert_eq!(hash_filename("2026-03-24"), "dailyhash-2026-03-24.txt");
    assert_eq!(
        contents_url("alice", "evidence", "hashes/dailyhash-2026-03-24.txt"),
        "https://api.github.com/repos/alice/evidence/contents/hashes/dailyhash-2026-03-24.txt"
    );
    assert_eq!(commit_message("2026-03-24"), "publish: dailyhash-2026-03-24");
    assert_eq!(bearer("tok"), "Bearer tok");
    assert_eq!(
        encoded_content("ba7816bf8f01cfea414140de5dae2223b00361a396177a9cb410ff61f20015ad"),
        "YmE3ODE2YmY4ZjAxY2ZlYTQxNDE0MGRlNWRhZTIyMjNiMDAzNjFhMzk2MTc3YTljYjQxMGZmNjFmMjAwMTVhZA=="
    );
}

#[test]
fn publish_settings_resolution() {
    let s = settings();
    let mut a = publish_args();
    assert_eq!(resolve_database_path(&a, Some(&s), None).unwrap(), "/cfg/canis.db");
    assert_eq!(resolve_database_path(&a, None, Some("/d.db".to_string())).unwrap(), "/d.db");
    assert_eq!(
        resolve_database_path(&a, None, None).err().unwrap().message(),
        "Configuration error: Failed to determine log file path"
    );
    a.dbfile = Some("/arg.db".to_string());
    assert_eq!(resolve_database_path(&a, Some(&s), None).unwrap(), "/arg.db");

    let t = resolve_publish_target(&publish_args(), Some(&s)).unwrap();
    assert_eq!((t.hashdir.as_str(), t.token.as_str(), t.repo.as_str()), ("hashes", "tok", "evidence"));
    let mut b = publish_args();
    b.repo = Some("other".to_string());
    assert_eq!(resolve_publish_target(&b, Some(&s)).unwrap().repo, "other");
    assert_eq!(
        resolve_publish_target(&publish_args(), None).err().unwrap().message(),
        "Configuration error: token is not specified"
    );
    let mut c = publish_args();
    c.hashdir = Some("h".to_string());
    c.token = Some("t".to_string());
    assert_eq!(
        resolve_publish_target(&c, None).err().unwrap().message(),
        "Configuration error: repo is not specified"
    );
}

#[test]
fn pid_files() {
    assert_eq!(parse_pid_file(" 123\n").unwrap(), 123);
    assert_eq!(parse_pid_file("+5").unwrap(), 5);
    assert_eq!(parse_pid_file("-7").unwrap(), -7);
    assert_eq!(parse_pid_file("-2147483648").unwrap(), i32::MIN);
    assert_eq!(parse_pid_file("2147483647").unwrap(), i32::MAX);
    for bad in ["abc", "2147483648", "", "+", "1 2", "12a"] {
        match parse_pid_file(bad) {
            Err(WatcherError::Other(m)) => assert_eq!(m, "Invalid PID file contents"),
            _ => panic!("expected an invalid PID file: {:?}", bad),
        }
    }
}

#[test]
fn stop_waits_ten_checks_then_kills() {
    let (mut run, first) = StopRun::start();
    assert_eq!(first, StopAction::Probe);
    assert_eq!(run.step(StopInput::Probe(ProbeOutcome::Alive)), StopAction::SendTerm);
    assert_eq!(
        run.step(StopInput::TermSent(true)),
        StopAction::WaitThenProbe { attempt: 0, progress: None }
    );
    assert_eq!(
        run.step(StopInput::Probe(ProbeOutcome::Alive)),
        StopAction::WaitThenProbe { attempt: 1, progress: Some(ProgressMark::Waiting) }
    );
    for attempt in 2..10u32 {
        assert_eq!(
            run.step(StopInput::Probe(ProbeOutcome::Alive)),
            StopAction::WaitThenProbe { attempt, progress: Some(ProgressMark::Dot) }
        );
    }
    assert_eq!(
        run.step(StopInput::Probe(ProbeOutcome::Alive)),
        StopAction::Kill { mark: ProgressMark::Dot }
    );
    assert_eq!(run.step(StopInput::KillSent(true)), StopAction::Killed);
}

#[test]
fn stop_outcomes() {
    let (mut run, _) = StopRun::start();
    assert_eq!(run.step(StopInput::Probe(ProbeOutcome::NoSuchProcess)), StopAction::AlreadyTerminated);

    let (mut run, _) = StopRun::start();
    assert_eq!(
        run.step(StopInput::Probe(ProbeOutcome::Failed)),
        StopAction::Fail(FailReason::ProbeFailed)
    );

    let (mut run, _) = StopRun::start();
    run.step(StopInput::Probe(ProbeOutcome::Alive));
    assert_eq!(run.step(StopInput::TermSent(false)), StopAction::Fail(FailReason::TermFailed));

    let (mut run, _) = StopRun::start();
    run.step(StopInput::Probe(ProbeOutcome::Alive));
    run.step(StopInput::TermSent(true));
    run.step(StopInput::Probe(ProbeOutcome::Alive));
    assert_eq!(run.step(StopInput::Probe(ProbeOutcome::NoSuchProcess)), StopAction::Stopped);
}

#[test]
fn start_database_comes_from_the_configuration() {
    let s = settings();
    assert_eq!(resolve_start_database(Some(&s), Some("/d.db".to_string())).unwrap(), "/cfg/canis.db");
    assert_eq!(resolve_start_database(Some(&empty_settings()), Some("/d.db".to_string())).unwrap(), "/d.db");
    assert_eq!(resolve_start_database(None, Some("/d.db".to_string())).unwrap(), "/d.db");
    assert_eq!(
        resolve_start_database(None, None).err().unwrap().message(),
        "Configuration error: Failed to determine database file path"
    );
}

#[test]
fn quick_start_command_line_needs_no_ignore_list() {
    let args = start_args(Some("notify"), Some(vec!["/watching/path/1/"]), Some("/path/to/logfile"));
    assert!(matches!(config_source(&args), ConfigSource::Skip));
    let r = resolve_start_settings(&args, None, None).unwrap();
    assert_eq!(r.targets, vec!["/watching/path/1/".to_string()]);
    let ignore = resolve_ignore_paths(&args, None, &r.logfile).unwrap();
    assert_eq!(ignore, vec!["/path/to/logfile".to_string()]);
}

#[test]
fn publish_arguments_complete_without_configuration() {
    let mut a = publish_args();
    assert!(!a.is_complete());
    a.dbfile = Some("/d.db".to_string());
    a.hashdir = Some("h".to_string());
    a.token = Some("t".to_string());
    assert!(!a.is_complete());
    a.repo = Some("".to_string());
    assert!(!a.is_complete());
    a.repo = Some("r".to_string());
    assert!(a.is_complete());
}
