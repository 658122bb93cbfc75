//! The decisions of the pass-through (FUSE) watcher: which file-system
//! requests produce events, how open flags are honoured, how the process
//! behind a request is described, and how the mount is taken down.
//!
//! The application implements the FUSE callbacks and does the file I/O.

use vstd::prelude::*;
use crate::adapter::event_time;
use crate::error::WatcherError;
use crate::event::{CanonicalEvent, EventView, ProcessInfo, ProcessInfoView};
use crate::hashing::hex_digit;
use crate::text::{concat2, join, to_owned_string, views};
use crate::uri::{path_to_uri, spec_path_to_uri};
use crate::watcher::{should_ignore, spec_should_ignore};

verus! {

/// A character as `serde_json` writes it inside a JSON string: `"` and `\`
/// after a backslash; backspace, tab, line feed, form feed and carriage return
/// as `\b`, `\t`, `\n`, `\f`, `\r`; the other characters below U+0020 as
/// `\u00` and two lower-case hex digits; every other character as it is.
pub open spec fn json_char(c: char) -> Seq<char> {
    if c == '"' {
        seq!['\\', '"']
    } else if c == '\\' {
        seq!['\\', '\\']
    } else if c == '\u{8}' {
        seq!['\\', 'b']
    } else if c == '\t' {
        seq!['\\', 't']
    } else if c == '\n' {
        seq!['\\', 'n']
    } else if c == '\u{c}' {
        seq!['\\', 'f']
    } else if c == '\r' {
        seq!['\\', 'r']
    } else if (c as u32) < 0x20 {
        seq!['\\', 'u', '0', '0', hex_digit(((c as u32) / 16) as u8), hex_digit(((c as u32) % 16) as u8)]
    } else {
        seq![c]
    }
}

/// The escaped characters of a JSON string's body.
pub open spec fn json_escaped(s: Seq<char>) -> Seq<char>
    decreases s.len(),
{
    if s.len() == 0 {
        Seq::empty()
    } else {
        json_escaped(s.drop_last()) + json_char(s.last())
    }
}

/// A string as a JSON string: its escaped characters between double quotes.
pub open spec fn json_string(s: Seq<char>) -> Seq<char> {
    seq!['"'] + json_escaped(s) + seq!['"']
}

/// A list of strings as compact JSON: the JSON strings, separated by commas,
/// between square brackets.
pub open spec fn json_string_list(items: Seq<Seq<char>>) -> Seq<char> {
    seq!['['] + join(items.map_values(|s: Seq<char>| json_string(s)), seq![',']) + seq![']']
}

/// Calls `serde_json::to_string` on the list of strings: compact JSON, as
/// `json_string_list` states it. Its source writes into a `Vec<u8>`, and
/// neither that nor serialising a string can fail, so the result is always `Some`.
#[verifier::external_body]
fn json_strings(items: &Vec<String>) -> (r: Option<String>)
    ensures
        r is Some,
        match r {
            Some(s) => s@ == json_string_list(views(items@)),
            None => false,
        },
{
    serde_json::to_string(items).ok()
}

/// The kinds of request that report a single file.
#[derive(Debug, Clone, Copy, PartialEq, Eq, Structural)]
pub enum PathEventKind {
    /// `mknod`, `mkdir`, `create`
    Create,
    /// `setattr` with a new size
    Modify,
    /// `open`
    Open,
}

/// The event a request on `path` reports, given its URI.
pub open spec fn spec_path_event(kind: PathEventKind, uri: Seq<char>, time: Seq<char>) -> EventView {
    match kind {
        PathEventKind::Create => EventView::Create { uri, time },
        PathEventKind::Modify => EventView::Modify { uri, time },
        PathEventKind::Open => EventView::Open { uri, time },
    }
}

/// What a request reports: nothing for an ignored path, the reason when the
/// path has no URI, or the event.
pub open spec fn spec_request_event(
    kind: PathEventKind,
    path: Seq<char>,
    ignore: Seq<Seq<char>>,
    time: Seq<char>,
) -> Option<Result<EventView, Seq<char>>> {
    if spec_should_ignore(path, ignore) {
        None
    } else {
        match spec_path_to_uri(path) {
            Ok(u) => Some(Ok(spec_path_event(kind, u, time))),
            Err(m) => Some(Err(m)),
        }
    }
}

/// The view of what a request reports.
pub open spec fn report_view(r: Option<Result<CanonicalEvent, WatcherError>>) -> Option<
    Result<EventView, Seq<char>>,
> {
    match r {
        None => None,
        Some(Ok(e)) => Some(Ok(e@)),
        Some(Err(WatcherError::UriFailed(m))) => Some(Err(m@)),
        Some(Err(_)) => Some(Err(Seq::empty())),
    }
}

/// The event a request on `path` reports at `time`.
pub fn request_event(kind: PathEventKind, path: &str, ignore: &[String], time: &str) -> (r: Option<
    Result<CanonicalEvent, WatcherError>,
>)
    ensures
        report_view(r) == spec_request_event(kind, path@, views(ignore@), time@),
        r matches Some(Err(e)) ==> e is UriFailed,
        r matches Some(Ok(e)) ==> event_time(e@) == time@,
{
    if should_ignore(path, ignore) {
        return None;
    }
    match path_to_uri(path) {
        Ok(uri) => {
            let time = to_owned_string(time);
            let e = match kind {
                PathEventKind::Create => CanonicalEvent::Create { uri, time },
                PathEventKind::Modify => CanonicalEvent::Modify { uri, time },
                PathEventKind::Open => CanonicalEvent::Open { uri, time },
            };
            Some(Ok(e))
        },
        Err(e) => Some(Err(e)),
    }
}

/// The event a `write` request reports: an append when the file was opened
/// for appending, otherwise a write; either carries the written bytes.
pub open spec fn spec_write_event(
    path: Seq<char>,
    ignore: Seq<Seq<char>>,
    time: Seq<char>,
    data: Seq<u8>,
    appending: bool,
) -> Option<Result<EventView, Seq<char>>> {
    if spec_should_ignore(path, ignore) {
        None
    } else {
        match spec_path_to_uri(path) {
            Ok(uri) => Some(
                Ok(
                    if appending {
                        EventView::Append { uri, content: data, time }
                    } else {
                        EventView::Write { uri, content: data, time }
                    },
                ),
            ),
            Err(m) => Some(Err(m)),
        }
    }
}

/// The event a `write` request reports; `append_flag` is the platform's
/// `O_APPEND` bit.
pub fn write_event(
    path: &str,
    ignore: &[String],
    time: &str,
    data: &[u8],
    flags: i32,
    append_flag: i32,
) -> (r: Option<Result<CanonicalEvent, WatcherError>>)
    ensures
        report_view(r) == spec_write_event(
            path@,
            views(ignore@),
            time@,
            data@,
            flags & append_flag != 0,
        ),
        r matches Some(Ok(e)) ==> event_time(e@) == time@,
{
    if should_ignore(path, ignore) {
        return None;
    }
    match path_to_uri(path) {
        Ok(uri) => {
            let time = to_owned_string(time);
            let mut content: Vec<u8> = Vec::new();
            let mut i: usize = 0;
            while i < data.len()
                invariant
                    i <= data@.len(),
                    content@ == data@.take(i as int),
                decreases data.len() - i,
            {
                content.push(data[i]);
                assert(data@.take(i as int).push(data@[i as int]) =~= data@.take(i + 1));
                i = i + 1;
            }
            assert(data@.take(data.len() as int) =~= data@);
            if flags & append_flag != 0 {
                Some(Ok(CanonicalEvent::Append { uri, content, time }))
            } else {
                Some(Ok(CanonicalEvent::Write { uri, content, time }))
            }
        },
        Err(e) => Some(Err(e)),
    }
}

/// What a `rename` request reports: nothing when either path is ignored;
/// otherwise a move when both paths have URIs, and the reasons of those that
/// have none.
pub open spec fn spec_rename_event(
    src: Seq<char>,
    dst: Seq<char>,
    ignore: Seq<Seq<char>>,
    time: Seq<char>,
) -> (Option<EventView>, Seq<Seq<char>>) {
    if spec_should_ignore(src, ignore) || spec_should_ignore(dst, ignore) {
        (None, Seq::empty())
    } else {
        match (spec_path_to_uri(src), spec_path_to_uri(dst)) {
            (Ok(s), Ok(d)) => (Some(EventView::Move { src: s, dst: d, time }), Seq::empty()),
            (Ok(_), Err(b)) => (None, seq![b]),
            (Err(a), Ok(_)) => (None, seq![a]),
            (Err(a), Err(b)) => (None, seq![a, b]),
        }
    }
}

/// The reasons carried by `UriFailed` errors.
pub open spec fn uri_failures(v: Seq<WatcherError>) -> Seq<Seq<char>> {
    v.map_values(
        |e: WatcherError|
            match e {
                WatcherError::UriFailed(s) => s@,
                _ => Seq::empty(),
            },
    )
}

/// What a `rename` request reports.
pub fn rename_event(src: &str, dst: &str, ignore: &[String], time: &str) -> (r: (
    Option<CanonicalEvent>,
    Vec<WatcherError>,
))
    ensures
        (match r.0 {
            Some(e) => Some(e@),
            None => None,
        }, uri_failures(r.1@)) == spec_rename_event(src@, dst@, views(ignore@), time@),
        r.0 matches Some(e) ==> event_time(e@) == time@,
{
    let mut failures: Vec<WatcherError> = Vec::new();
    if should_ignore(src, ignore) || should_ignore(dst, ignore) {
        assert(uri_failures(failures@) =~= Seq::<Seq<char>>::empty());
        return (None, failures);
    }
    let s = path_to_uri(src);
    let d = path_to_uri(dst);
    match (s, d) {
        (Ok(s), Ok(d)) => {
            assert(uri_failures(failures@) =~= Seq::<Seq<char>>::empty());
            (Some(CanonicalEvent::Move { src: s, dst: d, time: to_owned_string(time) }), failures)
        },
        (Ok(_), Err(b)) => {
            failures.push(b);
            assert(uri_failures(failures@) =~= seq![uri_failures(failures@)[0]]);
            (None, failures)
        },
        (Err(a), Ok(_)) => {
            failures.push(a);
            assert(uri_failures(failures@) =~= seq![uri_failures(failures@)[0]]);
            (None, failures)
        },
        (Err(a), Err(b)) => {
            failures.push(a);
            failures.push(b);
            assert(uri_failures(failures@) =~= seq![
                uri_failures(failures@)[0],
                uri_failures(failures@)[1],
            ]);
            (None, failures)
        },
    }
}

/// What the pass-through file system reports for a request on a path that is
/// not ignored: for a path with a URI, an event of the request's kind for that
/// URI, carrying the time the request was observed at (a write carries the
/// written bytes, and is an append exactly when the file was opened for
/// appending); a rename of two such paths is a move from the first URI to the
/// second; an ignored path reports nothing.
pub proof fn law_requests_report_their_path_and_time(
    kind: PathEventKind,
    path: Seq<char>,
    other: Seq<char>,
    ignore: Seq<Seq<char>>,
    time: Seq<char>,
    data: Seq<u8>,
    appending: bool,
)
    ensures
        spec_should_ignore(path, ignore) ==> spec_request_event(kind, path, ignore, time) is None
            && spec_write_event(path, ignore, time, data, appending) is None
            && spec_rename_event(path, other, ignore, time).0 is None
            && spec_rename_event(other, path, ignore, time).0 is None,
        !spec_should_ignore(path, ignore) && spec_path_to_uri(path) is Ok ==> {
            let u = spec_path_to_uri(path)->Ok_0;
            &&& spec_request_event(kind, path, ignore, time) == Some(
                Ok::<EventView, Seq<char>>(
                    match kind {
                        PathEventKind::Create => EventView::Create { uri: u, time },
                        PathEventKind::Modify => EventView::Modify { uri: u, time },
                        PathEventKind::Open => EventView::Open { uri: u, time },
                    },
                ),
            )
            &&& spec_write_event(path, ignore, time, data, appending) matches Some(Ok(e)) && event_time(e) == time
                && (appending ==> e == EventView::Append { uri: u, content: data, time })
                && (!appending ==> e == EventView::Write { uri: u, content: data, time })
        },
        !spec_should_ignore(path, ignore) && !spec_should_ignore(other, ignore) && spec_path_to_uri(path) is Ok
            && spec_path_to_uri(other) is Ok ==> spec_rename_event(path, other, ignore, time).0 == Some(
            EventView::Move {
                src: spec_path_to_uri(path)->Ok_0,
                dst: spec_path_to_uri(other)->Ok_0,
                time,
            },
        ),
{
}

/// The platform's values of the open flags the file system looks at.
pub struct OpenFlagBits {
    pub accmode: i32,
    pub rdonly: i32,
    pub wronly: i32,
    pub rdwr: i32,
    pub append: i32,
    pub trunc: i32,
    pub excl: i32,
}

/// How a file is opened for an `open` request.
#[derive(Debug, Clone, Copy, PartialEq, Eq, Structural)]
pub struct OpenRequest {
    pub read: bool,
    pub write: bool,
    pub append: bool,
    pub truncate: bool,
}

/// The access mode selects reading, writing or both; append and truncate
/// follow their flags.
pub open spec fn spec_open_request(flags: i32, bits: OpenFlagBits) -> OpenRequest {
    let mode = flags & bits.accmode;
    OpenRequest {
        read: mode == bits.rdonly || (mode != bits.wronly && mode == bits.rdwr),
        write: (mode != bits.rdonly && mode == bits.wronly) || (mode != bits.rdonly && mode
            != bits.wronly && mode == bits.rdwr),
        append: flags & bits.append != 0,
        truncate: flags & bits.trunc != 0,
    }
}

/// The open flags are honoured: `O_TRUNC` alone decides truncation and
/// `O_APPEND` alone decides appending, whatever the access mode; a read-only
/// open reads and does not write, a write-only open writes and does not read,
/// a read-write open does both, and any other access mode does neither.
pub proof fn law_open_flags_honoured(flags: i32, bits: OpenFlagBits)
    ensures
        spec_open_request(flags, bits).truncate == (flags & bits.trunc != 0),
        spec_open_request(flags, bits).append == (flags & bits.append != 0),
        flags & bits.accmode == bits.rdonly ==> spec_open_request(flags, bits).read
            && !spec_open_request(flags, bits).write,
        flags & bits.accmode == bits.wronly && bits.wronly != bits.rdonly ==> !spec_open_request(
            flags,
            bits,
        ).read && spec_open_request(flags, bits).write,
        flags & bits.accmode == bits.rdwr && bits.rdwr != bits.rdonly && bits.rdwr != bits.wronly
            ==> spec_open_request(flags, bits).read && spec_open_request(flags, bits).write,
        flags & bits.accmode != bits.rdonly && flags & bits.accmode != bits.wronly && flags
            & bits.accmode != bits.rdwr ==> !spec_open_request(flags, bits).read
            && !spec_open_request(flags, bits).write,
{
}

/// How to open a file for an `open` request with `flags`.
pub fn open_request(flags: i32, bits: &OpenFlagBits) -> (r: OpenRequest)
    ensures
        r == spec_open_request(flags, *bits),
        r.truncate == (flags & bits.trunc != 0),
        r.append == (flags & bits.append != 0),
{
    let mode = flags & bits.accmode;
    let mut r = OpenRequest { read: false, write: false, append: false, truncate: false };
    if mode == bits.rdonly {
        r.read = true;
    } else if mode == bits.wronly {
        r.write = true;
    } else if mode == bits.rdwr {
        r.read = true;
        r.write = true;
    }
    if flags & bits.append != 0 {
        r.append = true;
    }
    if flags & bits.trunc != 0 {
        r.truncate = true;
    }
    r
}

/// How a file is created for a `create` request: always for writing and
/// creating; exclusively with `O_EXCL`, truncated with `O_TRUNC`.
#[derive(Debug, Clone, Copy, PartialEq, Eq, Structural)]
pub struct CreateRequest {
    pub create_new: bool,
    pub truncate: bool,
}

/// How to create a file for a `create` request with `flags`.
pub fn create_request(flags: i32, bits: &OpenFlagBits) -> (r: CreateRequest)
    ensures
        r.create_new == (flags & bits.excl != 0),
        r.truncate == (flags & bits.trunc != 0),
{
    CreateRequest { create_new: flags & bits.excl != 0, truncate: flags & bits.trunc != 0 }
}

/// The process behind a request, from what the process table says of it: a
/// missing parent is `-1`, a missing executable is empty, and the command
/// line is stored as a JSON array of strings.
pub open spec fn spec_process_info(
    pid: u32,
    start_time: u64,
    parent: Option<u32>,
    exe: Option<Seq<char>>,
    args: Seq<Seq<char>>,
) -> ProcessInfoView {
    ProcessInfoView {
        start_time,
        pid: pid as i32,
        ppid: match parent {
            Some(p) => p as i32,
            None => -1i32,
        },
        exe: match exe {
            Some(e) => e,
            None => Seq::empty(),
        },
        cmd: json_string_list(args),
    }
}

/// Describes the process behind a request.
pub fn process_info_from(
    pid: u32,
    start_time: u64,
    parent: Option<u32>,
    exe: Option<String>,
    args: &Vec<String>,
) -> (r: ProcessInfo)
    ensures
        r@ == spec_process_info(
            pid,
            start_time,
            parent,
            match exe {
                Some(e) => Some(e@),
                None => None,
            },
            views(args@),
        ),
{
    let ppid: i32 = match parent {
        Some(p) => p as i32,
        None => -1,
    };
    let exe = match exe {
        Some(e) => e,
        None => String::new(),
    };
    let cmd = match json_strings(args) {
        Some(j) => j,
        None => String::new(),
    };
    ProcessInfo { start_time, pid: pid as i32, ppid, exe, cmd }
}

/// The kinds of file the file system reports.
#[derive(Debug, Clone, Copy, PartialEq, Eq, Structural)]
pub enum FileKind {
    Directory,
    Symlink,
    RegularFile,
}

/// The kind reported for a file: a directory, else a symbolic link, else a
/// regular file.
pub fn file_kind(is_dir: bool, is_symlink: bool) -> (r: FileKind)
    ensures
        r == (if is_dir {
            FileKind::Directory
        } else if is_symlink {
            FileKind::Symlink
        } else {
            FileKind::RegularFile
        }),
{
    if is_dir {
        FileKind::Directory
    } else if is_symlink {
        FileKind::Symlink
    } else {
        FileKind::RegularFile
    }
}

/// The permission bits of a file mode (the low twelve bits).
pub fn permission_bits(mode: u32) -> (r: u16)
    ensures
        r as u32 == mode & 0o7777u32,
{
    let bits = mode & 0o7777u32;
    assert(bits <= 0o7777u32) by (bit_vector)
        requires
            bits == mode & 0o7777u32,
    ;
    bits as u16
}

/// A time since the epoch as `(seconds, nanoseconds)`; `(0, 0)` for a time
/// before the epoch.
pub open spec fn spec_epoch_parts(since_epoch: Option<(u64, u32)>) -> (i64, u32) {
    match since_epoch {
        Some((secs, nanos)) => (secs as i64, nanos),
        None => (0, 0),
    }
}

/// A time since the epoch as `(seconds, nanoseconds)`.
pub fn epoch_parts(since_epoch: Option<(u64, u32)>) -> (r: (i64, u32))
    ensures
        r == spec_epoch_parts(since_epoch),
{
    match since_epoch {
        Some((secs, nanos)) => (secs as i64, nanos),
        None => (0, 0),
    }
}

#[verifier::external_type_specification]
#[verifier::external_body]
pub struct ExSystemTime(std::time::SystemTime);

/// The seconds and sub-second nanoseconds from the epoch to a time
/// (`SystemTime::duration_since(UNIX_EPOCH)`), or `None` for a time before it.
pub uninterp spec fn spec_since_epoch(t: std::time::SystemTime) -> Option<(u64, u32)>;

/// Calls `SystemTime::duration_since(UNIX_EPOCH)`; the result is named
/// `spec_since_epoch`, and its nanoseconds are below one billion, as
/// `Duration` keeps them.
#[verifier::external_body]
fn duration_since_epoch(time: &std::time::SystemTime) -> (r: Option<(u64, u32)>)
    ensures
        r == spec_since_epoch(*time),
        r matches Some((_, nanos)) ==> nanos < 1_000_000_000,
{
    time.duration_since(std::time::UNIX_EPOCH).ok().map(|d| (d.as_secs(), d.subsec_nanos()))
}

/// A system time as `(seconds, nanoseconds)` since the epoch; `(0, 0)` for a
/// time before it.
pub fn system_time_to_tuple(time: std::time::SystemTime) -> (r: (i64, u32))
    ensures
        r == spec_epoch_parts(spec_since_epoch(time)),
        r.1 < 1_000_000_000,
{
    epoch_parts(duration_since_epoch(&time))
}

/// How many entries of a directory a read that starts at `offset` skips
/// (the offset of the last entry the previous read returned).
pub fn dir_entries_skipped(offset: i64) -> (r: usize)
    ensures
        r == offset as usize,
{
    offset as usize
}

/// The offset reported with the entry `index` places after the first one a
/// read starting at `offset` returns: the next read starts after it.
pub fn dir_entry_offset(offset: i64, index: i64) -> (r: i64)
    requires
        0 <= index,
        offset + index + 1 <= i64::MAX,
    ensures
        r == offset + index + 1,
{
    offset + index + 1
}

/// The number of plain unmount attempts before a forced one.
pub const MAX_UNMOUNT_RETRIES: u32 = 5;

/// What taking the mount down does next.
#[derive(Debug, Clone, Copy, PartialEq, Eq, Structural)]
pub enum UnmountStep {
    /// The mount point is free.
    Done,
    /// Wait, then make plain attempt number `attempt`.
    RetryAfterDelay { attempt: u32 },
    /// Force the unmount (lazily on Linux, forcibly on macOS).
    Force,
}

/// After plain attempt `attempt` (counting from 1) succeeded or failed.
pub open spec fn spec_unmount_next(attempt: u32, succeeded: bool) -> UnmountStep {
    if succeeded {
        UnmountStep::Done
    } else if attempt < MAX_UNMOUNT_RETRIES {
        UnmountStep::RetryAfterDelay { attempt: (attempt + 1) as u32 }
    } else {
        UnmountStep::Force
    }
}

/// What to do after a plain unmount attempt.
pub fn unmount_next(attempt: u32, succeeded: bool) -> (r: UnmountStep)
    requires
        1 <= attempt <= MAX_UNMOUNT_RETRIES,
    ensures
        r == spec_unmount_next(attempt, succeeded),
{
    if succeeded {
        UnmountStep::Done
    } else if attempt < MAX_UNMOUNT_RETRIES {
        UnmountStep::RetryAfterDelay { attempt: attempt + 1 }
    } else {
        UnmountStep::Force
    }
}

/// The steps after `n` failed plain attempts.
pub open spec fn failed_attempts(n: nat) -> UnmountStep
    decreases n,
{
    if n <= 1 {
        spec_unmount_next(1, false)
    } else {
        match failed_attempts((n - 1) as nat) {
            UnmountStep::RetryAfterDelay { attempt } => spec_unmount_next(attempt, false),
            s => s,
        }
    }
}

/// The unmount is forced only after five plain attempts have failed.
pub proof fn law_force_after_five_failures(n: nat)
    requires
        1 <= n <= 5,
    ensures
        n < 5 ==> failed_attempts(n) == (UnmountStep::RetryAfterDelay { attempt: (n + 1) as u32 }),
        n == 5 ==> failed_attempts(n) == UnmountStep::Force,
    decreases n,
{
    if n > 1 {
        law_force_after_five_failures((n - 1) as nat);
    }
}

/// The name the watched directory is moved to while the file system is
/// mounted in its place.
pub fn watch_dir_name(name: &str) -> (r: String)
    ensures
        r@ == name@ + ".watch"@,
{
    concat2(name, ".watch")
}

} // verus!
