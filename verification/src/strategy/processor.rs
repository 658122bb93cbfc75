//! Processing strategies by level: what each writes to the evidence log and
//! shows on the console for an event.
//!
//! Each strategy holds the logger it was built with and computes the lines
//! for it; the application reads the files, writes the lines to that logger
//! and prints the console lines.

use vstd::prelude::*;
use crate::event::{CanonicalEvent, EventView};
use crate::logger::{
    Logger, hash_and_path, latest_hash, law_reverse_scan_finds_latest_in_text, lemma_latest_hash_concat,
    lemma_split_lines_nonempty,
    line_hash, scan_run, spec_utf8_lossy, split_lines, utf8_lossy,
};
use crate::text::{
    chars_of, decimal, decimal_exec, fill_template, interleave, is_white_space, lemma_find_char_at,
    lemma_interleave_three, lemma_interleave_two, str_views, string_of, to_owned_string, trim, trim_chars, trim_end, trim_start,
};
use vstd::utf8::encode_utf8;
use crate::uri::{spec_url_to_file_path, Uri};
use crate::hashing::{hash_bytes, spec_digest_text};

verus! {

/// A processing strategy.
pub trait ProcessorStrategy {
    /// What the strategy does, for people.
    fn description(&self) -> String;

    /// The level of events the strategy handles.
    fn level(&self) -> u8;
}

/// Level 1: the digest of each created or modified file goes to the log.
pub struct L1ProcessorStrategy<L: Logger> {
    logger: L,
}

/// Level 3: every event is shown in detail and logged.
pub struct L3ProcessorStrategy<L: Logger> {
    logger: L,
}

/// The log line of a digest: `time,hash,location`.
pub open spec fn spec_digest_line(time: Seq<char>, hash: Seq<char>, location: Seq<char>) -> Seq<char> {
    interleave(seq![""@, ","@, ","@, ""@], seq![time, hash, location])
}

/// A digest line is the time, a comma, the hash, a comma, and the location.
pub proof fn law_digest_line_text(time: Seq<char>, hash: Seq<char>, location: Seq<char>)
    ensures
        spec_digest_line(time, hash, location) == time + ","@ + hash + ","@ + location,
{
    reveal_strlit("");
    lemma_interleave_three(""@, ","@, ","@, ""@, time, hash, location);
    assert(""@ + time + ","@ + hash + ","@ + location + ""@ =~= time + ","@ + hash + ","@ + location);
}

/// The view of an optional text.
pub open spec fn opt_text(o: Option<String>) -> Option<Seq<char>> {
    match o {
        Some(s) => Some(s@),
        None => None,
    }
}

/// The level-1 log line of an event whose file hashed to `hash`: the
/// digest line with the file's path, for a creation or modification.
pub open spec fn spec_l1_line(e: EventView, hash: Seq<char>) -> Option<Seq<char>> {
    match e {
        EventView::Create { uri, time } | EventView::Modify { uri, time } => match spec_url_to_file_path(uri) {
            Some(path) => Some(spec_digest_line(time, hash, path)),
            None => None,
        },
        _ => None,
    }
}

/// At level 1 only creations and modifications of files with a path are
/// logged, as the event's time, the hash and the file's path, separated by
/// commas; nothing else gives a line.
pub proof fn law_l1_line_text(e: EventView, hash: Seq<char>)
    ensures
        spec_l1_line(e, hash) == match e {
            EventView::Create { uri, time } | EventView::Modify { uri, time } => match spec_url_to_file_path(
                uri,
            ) {
                Some(path) => Some(time + ","@ + hash + ","@ + path),
                None => None,
            },
            _ => None,
        },
{
    match e {
        EventView::Create { uri, time } | EventView::Modify { uri, time } => {
            if let Some(path) = spec_url_to_file_path(uri) {
                law_digest_line_text(time, hash, path);
            }
        },
        _ => {},
    }
}

impl<L: Logger> L1ProcessorStrategy<L> {
    /// The logger the strategy was built with.
    pub closed spec fn held_logger(&self) -> L {
        self.logger
    }

    /// The logger the strategy was built with; its lines go there.
    pub fn logger(&self) -> (r: &L)
        ensures
            *r == self.held_logger(),
    {
        &self.logger
    }

    /// A level-1 strategy writing to `logger`.
    pub fn new(logger: L) -> (r: L1ProcessorStrategy<L>)
        ensures
            r.held_logger() == logger,
    {
        L1ProcessorStrategy { logger }
    }


    /// The file whose digest is logged for an event: that of a creation or
    /// modification; none for the other events.
    pub fn hash_target(&self, event: &CanonicalEvent) -> (r: Option<Uri>)
        ensures
            match event@ {
                EventView::Create { uri, .. } | EventView::Modify { uri, .. } => r matches Some(
                    u,
                ) && u@ == uri,
                _ => r is None,
            },
    {
        match event {
            CanonicalEvent::Create { uri, .. } | CanonicalEvent::Modify { uri, .. } => Some(
                uri.clone(),
            ),
            _ => None,
        }
    }

    /// The log line for an event whose file hashed to `hash`:
    /// `time,hash,path` for a creation or modification of a file; none for the
    /// other events, or when the URI names no file.
    pub fn log_line(&self, event: &CanonicalEvent, hash: &str) -> (r: Option<String>)
        ensures
            opt_text(r) == spec_l1_line(event@, hash@),
    {
        match event {
            CanonicalEvent::Create { uri, time } | CanonicalEvent::Modify { uri, time } => {
                match uri.to_file_path() {
                    Some(path) => {
                        let pieces: Vec<&str> = vec!["", ",", ",", ""];
                        let values: Vec<&str> = vec![time.as_str(), hash, path.as_str()];
                        assert(str_views(pieces@) =~= seq![""@, ","@, ","@, ""@]);
                        assert(str_views(values@) =~= seq![time@, hash@, path@]);
                        Some(fill_template(pieces.as_slice(), values.as_slice()))
                    },
                    None => None,
                }
            },
            _ => None,
        }
    }

    /// The log line for an event whose file holds `content`: its SHA-256
    /// digest, in hex, is the logged hash.
    pub fn log_line_for_content(&self, event: &CanonicalEvent, content: &[u8]) -> (r: Option<
        String,
    >)
        ensures
            opt_text(r) == spec_l1_line(event@, spec_digest_text(content@)),
    {
        let hash = hash_bytes(content);
        self.log_line(event, hash.as_str())
    }
}

impl<L: Logger> ProcessorStrategy for L1ProcessorStrategy<L> {
    fn description(&self) -> (r: String)
        ensures
            r@ == "L1: 基本処理（ハッシュ値計算 + ログ出力）"@,
    {
        to_owned_string("L1: 基本処理（ハッシュ値計算 + ログ出力）")
    }

    fn level(&self) -> (r: u8)
        ensures
            r == 1,
    {
        1
    }
}

/// `{:?}` of an optional process id.
pub open spec fn spec_pid_debug(pid: Option<u32>) -> Seq<char> {
    match pid {
        Some(p) => "Some("@ + decimal(p as nat) + ")"@,
        None => "None"@,
    }
}

fn pid_debug(pid: Option<u32>) -> (r: String)
    ensures
        r@ == spec_pid_debug(pid),
{
    match pid {
        Some(p) => {
            let d = decimal_exec(p as u64);
            let pieces: Vec<&str> = vec!["Some(", ")"];
            let values: Vec<&str> = vec![d.as_str()];
            assert(str_views(pieces@) =~= seq!["Some("@, ")"@]);
            assert(str_views(values@) =~= seq![d@]);
            proof {
                reveal_with_fuel(interleave, 2);
            }
            fill_template(pieces.as_slice(), values.as_slice())
        },
        None => to_owned_string("None"),
    }
}

/// How a file is shown in level-3 lines: its path for a `file` URL,
/// otherwise the URL itself.
pub open spec fn shown(uri: Seq<char>) -> Seq<char> {
    match spec_url_to_file_path(uri) {
        Some(p) => p,
        None => uri,
    }
}

/// How a file is shown in level-3 lines.
fn shown_path(uri: &Uri) -> (r: String)
    ensures
        r@ == shown(uri@),
{
    match uri.to_file_path() {
        Some(p) => p,
        None => uri.to_text(),
    }
}

/// The log line of an event at level 3 (`pid` is the process that opened a file).
pub open spec fn spec_l3_log(e: EventView, pid: Option<u32>) -> Seq<char> {
    match e {
        EventView::Create { uri, time } => interleave(
            seq!["CREATE "@, " time="@, ""@],
            seq![shown(uri), time],
        ),
        EventView::Modify { uri, time } => interleave(
            seq!["MODIFY "@, " time="@, ""@],
            seq![shown(uri), time],
        ),
        EventView::Move { src, dst, time } => interleave(
            seq!["MOVE "@, " -> "@, " time="@, ""@],
            seq![shown(src), shown(dst), time],
        ),
        EventView::Write { uri, content, time } => interleave(
            seq!["WRITE "@, " time="@, " size="@, ""@],
            seq![shown(uri), time, decimal(content.len())],
        ),
        EventView::Open { uri, time } => interleave(
            seq!["OPEN "@, " pid="@, " time="@, ""@],
            seq![shown(uri), spec_pid_debug(pid), time],
        ),
        EventView::Append { uri, time, .. } => interleave(
            seq!["APPEND "@, " time="@, ""@],
            seq![shown(uri), time],
        ),
    }
}

/// A level-3 log line names the operation in capitals, then the file as
/// shown (both files of a move, source first), then the time; a write also
/// gives the number of bytes written, after the time, and an open the
/// process, before it.
pub proof fn law_l3_log_text(e: EventView, pid: Option<u32>)
    ensures
        spec_l3_log(e, pid) == match e {
            EventView::Create { uri, time } => "CREATE "@ + shown(uri) + " time="@ + time,
            EventView::Modify { uri, time } => "MODIFY "@ + shown(uri) + " time="@ + time,
            EventView::Move { src, dst, time } => "MOVE "@ + shown(src) + " -> "@ + shown(dst) + " time="@
                + time,
            EventView::Write { uri, content, time } => "WRITE "@ + shown(uri) + " time="@ + time
                + " size="@ + decimal(content.len()),
            EventView::Open { uri, time } => "OPEN "@ + shown(uri) + " pid="@ + spec_pid_debug(pid)
                + " time="@ + time,
            EventView::Append { uri, time, .. } => "APPEND "@ + shown(uri) + " time="@ + time,
        },
{
    reveal_strlit("");
    match e {
        EventView::Create { uri, time } => {
            lemma_interleave_two("CREATE "@, " time="@, ""@, shown(uri), time);
            assert("CREATE "@ + shown(uri) + " time="@ + time + ""@ =~= "CREATE "@ + shown(uri) + " time="@ + time);
        },
        EventView::Modify { uri, time } => {
            lemma_interleave_two("MODIFY "@, " time="@, ""@, shown(uri), time);
            assert("MODIFY "@ + shown(uri) + " time="@ + time + ""@ =~= "MODIFY "@ + shown(uri) + " time="@ + time);
        },
        EventView::Move { src, dst, time } => {
            lemma_interleave_three("MOVE "@, " -> "@, " time="@, ""@, shown(src), shown(dst), time);
            assert("MOVE "@ + shown(src) + " -> "@ + shown(dst) + " time="@ + time + ""@ =~= "MOVE "@
                + shown(src) + " -> "@ + shown(dst) + " time="@ + time);
        },
        EventView::Write { uri, content, time } => {
            lemma_interleave_three("WRITE "@, " time="@, " size="@, ""@, shown(uri), time, decimal(content.len()));
            assert("WRITE "@ + shown(uri) + " time="@ + time + " size="@ + decimal(content.len()) + ""@
                =~= "WRITE "@ + shown(uri) + " time="@ + time + " size="@ + decimal(content.len()));
        },
        EventView::Open { uri, time } => {
            lemma_interleave_three("OPEN "@, " pid="@, " time="@, ""@, shown(uri), spec_pid_debug(pid), time);
            assert("OPEN "@ + shown(uri) + " pid="@ + spec_pid_debug(pid) + " time="@ + time + ""@ =~= "OPEN "@
                + shown(uri) + " pid="@ + spec_pid_debug(pid) + " time="@ + time);
        },
        EventView::Append { uri, time, .. } => {
            lemma_interleave_two("APPEND "@, " time="@, ""@, shown(uri), time);
            assert("APPEND "@ + shown(uri) + " time="@ + time + ""@ =~= "APPEND "@ + shown(uri) + " time="@ + time);
        },
    }
}

/// The console lines of an event at level 3: one line, and for a non-empty
/// write a second one with the start of the written text.
pub open spec fn spec_l3_console(e: EventView, pid: Option<u32>) -> Seq<Seq<char>> {
    match e {
        EventView::Create { uri, time } => seq![
            interleave(seq!["✨ Create "@, " ("@, ")"@], seq![shown(uri), time]),
        ],
        EventView::Modify { uri, time } => seq![
            interleave(seq!["📝 Modify "@, " ("@, ")"@], seq![shown(uri), time]),
        ],
        EventView::Move { src, dst, time } => seq![
            interleave(seq!["📦 Move "@, " → "@, " ("@, ")"@], seq![shown(src), shown(dst), time]),
        ],
        EventView::Write { uri, content, time } => {
            let first = interleave(
                seq!["✏️ Write "@, " ("@, ") ["@, "バイト]"@],
                seq![shown(uri), time, decimal(content.len())],
            );
            if content.len() > 0 {
                let n = if content.len() < 100 {
                    content.len() as int
                } else {
                    100
                };
                seq![first, "   内容: "@ + trim(spec_utf8_lossy(content.take(n)))]
            } else {
                seq![first]
            }
        },
        EventView::Open { uri, time } => seq![
            interleave(seq!["📂 Open "@, " PID="@, " ("@, ")"@], seq![shown(uri), spec_pid_debug(pid), time]),
        ],
        EventView::Append { uri, time, .. } => seq![
            interleave(seq!["📄 Append "@, " ("@, ")"@], seq![shown(uri), time]),
        ],
    }
}

/// A level-3 console line shows the operation's symbol and name, the file as
/// shown (both files of a move, source first) and the time in brackets; a
/// write also gives the number of bytes, and, when it wrote any, a second line
/// with the first 100 bytes (or fewer) as text, trimmed; an open gives the
/// process.
pub proof fn law_l3_console_text(e: EventView, pid: Option<u32>)
    ensures
        spec_l3_console(e, pid) == match e {
            EventView::Create { uri, time } => seq!["✨ Create "@ + shown(uri) + " ("@ + time + ")"@],
            EventView::Modify { uri, time } => seq!["📝 Modify "@ + shown(uri) + " ("@ + time + ")"@],
            EventView::Move { src, dst, time } => seq![
                "📦 Move "@ + shown(src) + " → "@ + shown(dst) + " ("@ + time + ")"@,
            ],
            EventView::Write { uri, content, time } => {
                let first = "✏️ Write "@ + shown(uri) + " ("@ + time + ") ["@ + decimal(content.len())
                    + "バイト]"@;
                if content.len() == 0 {
                    seq![first]
                } else {
                    seq![
                        first,
                        "   内容: "@ + trim(
                            spec_utf8_lossy(
                                content.take(
                                    if content.len() < 100 {
                                        content.len() as int
                                    } else {
                                        100
                                    },
                                ),
                            ),
                        ),
                    ]
                }
            },
            EventView::Open { uri, time } => seq![
                "📂 Open "@ + shown(uri) + " PID="@ + spec_pid_debug(pid) + " ("@ + time + ")"@,
            ],
            EventView::Append { uri, time, .. } => seq!["📄 Append "@ + shown(uri) + " ("@ + time + ")"@],
        },
{
    match e {
        EventView::Create { uri, time } => {
            lemma_interleave_two("✨ Create "@, " ("@, ")"@, shown(uri), time);
        },
        EventView::Modify { uri, time } => {
            lemma_interleave_two("📝 Modify "@, " ("@, ")"@, shown(uri), time);
        },
        EventView::Move { src, dst, time } => {
            lemma_interleave_three("📦 Move "@, " → "@, " ("@, ")"@, shown(src), shown(dst), time);
        },
        EventView::Write { uri, content, time } => {
            lemma_interleave_three("✏️ Write "@, " ("@, ") ["@, "バイト]"@, shown(uri), time, decimal(content.len()));
        },
        EventView::Open { uri, time } => {
            lemma_interleave_three("📂 Open "@, " PID="@, " ("@, ")"@, shown(uri), spec_pid_debug(pid), time);
        },
        EventView::Append { uri, time, .. } => {
            lemma_interleave_two("📄 Append "@, " ("@, ")"@, shown(uri), time);
        },
    }
}

fn render2(p0: &str, p1: &str, p2: &str, v0: &str, v1: &str) -> (r: String)
    ensures
        r@ == interleave(seq![p0@, p1@, p2@], seq![v0@, v1@]),
{
    let pieces: Vec<&str> = vec![p0, p1, p2];
    let values: Vec<&str> = vec![v0, v1];
    assert(str_views(pieces@) =~= seq![p0@, p1@, p2@]);
    assert(str_views(values@) =~= seq![v0@, v1@]);
    fill_template(pieces.as_slice(), values.as_slice())
}

fn render3(p0: &str, p1: &str, p2: &str, p3: &str, v0: &str, v1: &str, v2: &str) -> (r: String)
    ensures
        r@ == interleave(seq![p0@, p1@, p2@, p3@], seq![v0@, v1@, v2@]),
{
    let pieces: Vec<&str> = vec![p0, p1, p2, p3];
    let values: Vec<&str> = vec![v0, v1, v2];
    assert(str_views(pieces@) =~= seq![p0@, p1@, p2@, p3@]);
    assert(str_views(values@) =~= seq![v0@, v1@, v2@]);
    fill_template(pieces.as_slice(), values.as_slice())
}

impl<L: Logger> L3ProcessorStrategy<L> {
    /// The logger the strategy was built with.
    pub closed spec fn held_logger(&self) -> L {
        self.logger
    }

    /// The logger the strategy was built with; its lines go there.
    pub fn logger(&self) -> (r: &L)
        ensures
            *r == self.held_logger(),
    {
        &self.logger
    }

    /// A level-3 strategy writing to `logger`.
    pub fn new(logger: L) -> (r: L3ProcessorStrategy<L>)
        ensures
            r.held_logger() == logger,
    {
        L3ProcessorStrategy { logger }
    }


    /// The log line of an event.
    pub fn log_line(&self, event: &CanonicalEvent, pid: Option<u32>) -> (r: String)
        ensures
            r@ == spec_l3_log(event@, pid),
    {
        match event {
            CanonicalEvent::Create { uri, time } => render2(
                "CREATE ",
                " time=",
                "",
                shown_path(uri).as_str(),
                time.as_str(),
            ),
            CanonicalEvent::Modify { uri, time } => render2(
                "MODIFY ",
                " time=",
                "",
                shown_path(uri).as_str(),
                time.as_str(),
            ),
            CanonicalEvent::Move { src, dst, time } => render3(
                "MOVE ",
                " -> ",
                " time=",
                "",
                shown_path(src).as_str(),
                shown_path(dst).as_str(),
                time.as_str(),
            ),
            CanonicalEvent::Write { uri, content, time } => {
                let size = decimal_exec(content.len() as u64);
                render3(
                    "WRITE ",
                    " time=",
                    " size=",
                    "",
                    shown_path(uri).as_str(),
                    time.as_str(),
                    size.as_str(),
                )
            },
            CanonicalEvent::Open { uri, time } => {
                let p = pid_debug(pid);
                render3("OPEN ", " pid=", " time=", "", shown_path(uri).as_str(), p.as_str(), time.as_str())
            },
            CanonicalEvent::Append { uri, time, .. } => render2(
                "APPEND ",
                " time=",
                "",
                shown_path(uri).as_str(),
                time.as_str(),
            ),
        }
    }

    /// The console lines of an event.
    pub fn console_lines(&self, event: &CanonicalEvent, pid: Option<u32>) -> (r: Vec<String>)
        ensures
            r@.map_values(|s: String| s@) == spec_l3_console(event@, pid),
    {
        let mut out: Vec<String> = Vec::new();
        match event {
            CanonicalEvent::Create { uri, time } => {
                out.push(render2("✨ Create ", " (", ")", shown_path(uri).as_str(), time.as_str()));
            },
            CanonicalEvent::Modify { uri, time } => {
                out.push(render2("📝 Modify ", " (", ")", shown_path(uri).as_str(), time.as_str()));
            },
            CanonicalEvent::Move { src, dst, time } => {
                out.push(
                    render3(
                        "📦 Move ",
                        " → ",
                        " (",
                        ")",
                        shown_path(src).as_str(),
                        shown_path(dst).as_str(),
                        time.as_str(),
                    ),
                );
            },
            CanonicalEvent::Write { uri, content, time } => {
                let size = decimal_exec(content.len() as u64);
                out.push(
                    render3(
                        "✏️ Write ",
                        " (",
                        ") [",
                        "バイト]",
                        shown_path(uri).as_str(),
                        time.as_str(),
                        size.as_str(),
                    ),
                );
                if content.len() > 0 {
                    let n: usize = if content.len() < 100 {
                        content.len()
                    } else {
                        100
                    };
                    let mut head: Vec<u8> = Vec::new();
                    let mut i: usize = 0;
                    while i < n
                        invariant
                            i <= n <= content@.len(),
                            head@ == content@.take(i as int),
                        decreases n - i,
                    {
                        head.push(content[i]);
                        assert(content@.take(i as int).push(content@[i as int]) =~= content@.take(
                            i + 1,
                        ));
                        i = i + 1;
                    }
                    let text = utf8_lossy(head.as_slice());
                    let cs = chars_of(text.as_str());
                    let t = trim_chars(cs.as_slice());
                    let body = string_of(t.as_slice());
                    let mut line = to_owned_string("   内容: ");
                    crate::text::push_str(&mut line, body.as_str());
                    out.push(line);
                }
            },
            CanonicalEvent::Open { uri, time } => {
                let p = pid_debug(pid);
                out.push(
                    render3("📂 Open ", " PID=", " (", ")", shown_path(uri).as_str(), p.as_str(), time.as_str()),
                );
            },
            CanonicalEvent::Append { uri, time, .. } => {
                out.push(render2("📄 Append ", " (", ")", shown_path(uri).as_str(), time.as_str()));
            },
        }
        assert(out@.map_values(|s: String| s@) =~= spec_l3_console(event@, pid));
        out
    }
}

impl<L: Logger> ProcessorStrategy for L3ProcessorStrategy<L> {
    fn description(&self) -> (r: String)
        ensures
            r@ == "L3: 詳細処理（すべてのイベントを詳細表示）"@,
    {
        to_owned_string("L3: 詳細処理（すべてのイベントを詳細表示）")
    }

    fn level(&self) -> (r: u8)
        ensures
            r == 3,
    {
        3
    }
}

/// The processing strategy for a level (1 or 3).
pub enum ProcessorChoice<L: Logger> {
    L1(L1ProcessorStrategy<L>),
    L3(L3ProcessorStrategy<L>),
}

impl<L: Logger> ProcessorChoice<L> {
    /// The level of the chosen strategy.
    pub open spec fn spec_level(&self) -> u8 {
        match self {
            ProcessorChoice::L1(_) => 1,
            ProcessorChoice::L3(_) => 3,
        }
    }

    /// The logger of the chosen strategy.
    pub open spec fn spec_logger(&self) -> L {
        match self {
            ProcessorChoice::L1(s) => s.held_logger(),
            ProcessorChoice::L3(s) => s.held_logger(),
        }
    }
}

/// The processing strategy for a level (1 or 3), writing to `logger`.
pub fn create_strategy<L: Logger>(level: u8, logger: L) -> (r: ProcessorChoice<L>)
    requires
        level == 1 || level == 3,
    ensures
        r.spec_level() == level,
        r.spec_logger() == logger,
{
    if level == 1 {
        ProcessorChoice::L1(L1ProcessorStrategy::new(logger))
    } else {
        ProcessorChoice::L3(L3ProcessorStrategy::new(logger))
    }
}

/// Splitting `p` extended by characters without `\n` extends the last line of `p`.
proof fn lemma_split_lines_extend(p: Seq<char>, e: Seq<char>)
    requires
        forall|i: int| 0 <= i < e.len() ==> e[i] != '\n',
    ensures
        split_lines(p + e) == split_lines(p).update(
            split_lines(p).len() - 1,
            split_lines(p).last() + e,
        ),
    decreases e.len(),
{
    lemma_split_lines_nonempty(p);
    if e.len() == 0 {
        assert(p + e =~= p);
        assert(split_lines(p).last() + e =~= split_lines(p).last());
        assert(split_lines(p).update(split_lines(p).len() - 1, split_lines(p).last())
            =~= split_lines(p));
    } else {
        let e1 = e.drop_last();
        lemma_split_lines_extend(p, e1);
        assert((p + e).drop_last() =~= p + e1);
        assert((p + e).last() == e.last());
        assert(e.last() == e[e.len() - 1]);
        let sp = split_lines(p);
        let s1 = split_lines(p + e1);
        assert((sp.last() + e1).push(e.last()) =~= sp.last() + e);
        assert(s1.update(s1.len() - 1, s1.last().push(e.last())) =~= sp.update(
            sp.len() - 1,
            sp.last() + e,
        ));
    }
}

/// Trimming the start keeps a character that is not white space.
proof fn lemma_trim_start_keeps(s: Seq<char>, k: int)
    requires
        0 <= k < s.len(),
        !is_white_space(s[k]),
    ensures
        exists|j: int| 0 <= j < trim_start(s).len() && !is_white_space(#[trigger] trim_start(s)[j]),
    decreases s.len(),
{
    if is_white_space(s[0]) {
        assert(k > 0);
        assert(trim_start(s) == trim_start(s.drop_first()));
        assert(s.drop_first()[k - 1] == s[k]);
        lemma_trim_start_keeps(s.drop_first(), k - 1);
    } else {
        assert(!is_white_space(trim_start(s)[k]));
    }
}

/// A text holding a character that is not white space trims to a non-empty text.
proof fn lemma_trim_end_nonempty(s: Seq<char>, k: int)
    requires
        0 <= k < s.len(),
        !is_white_space(s[k]),
    ensures
        trim_end(s).len() > 0,
    decreases s.len(),
{
    if is_white_space(s.last()) {
        assert(s.drop_last()[k] == s[k]);
        lemma_trim_end_nonempty(s.drop_last(), k);
    }
}

/// The digest line of a time, hash and path free of separators records that
/// hash for that path, holds no newline, and is not blank.
proof fn lemma_digest_line_records(time: Seq<char>, hash: Seq<char>, path: Seq<char>)
    requires
        forall|i: int| 0 <= i < time.len() ==> time[i] != ',' && time[i] != '\n',
        forall|i: int| 0 <= i < hash.len() ==> hash[i] != ',' && hash[i] != '\n',
        forall|i: int| 0 <= i < path.len() ==> path[i] != '\n',
        trim(path) == path,
    ensures
        line_hash(spec_digest_line(time, hash, path), path) == Some(hash),
        trim(spec_digest_line(time, hash, path)).len() > 0,
        forall|i: int|
            0 <= i < spec_digest_line(time, hash, path).len() ==> #[trigger] spec_digest_line(
                time,
                hash,
                path,
            )[i] != '\n',
{
    reveal_with_fuel(interleave, 4);
    reveal_strlit("");
    reveal_strlit(",");
    let line = time + seq![','] + hash + seq![','] + path;
    assert(spec_digest_line(time, hash, path) =~= line);
    assert forall|i: int| 0 <= i < line.len() implies line[i] != '\n' by {
        if i < time.len() {
            assert(line[i] == time[i]);
        } else if i == time.len() {
        } else if i < time.len() + 1 + hash.len() {
            assert(line[i] == hash[i - time.len() - 1]);
        } else if i == time.len() + 1 + hash.len() {
        } else {
            assert(line[i] == path[i - time.len() - 2 - hash.len()]);
        }
    }
    assert forall|k: int| 0 <= k < time.len() implies line[k] != ',' by {
        assert(line[k] == time[k]);
    }
    lemma_find_char_at(line, ',', time.len() as int);
    let rest = line.subrange(time.len() as int + 1, line.len() as int);
    assert(rest =~= hash + seq![','] + path);
    assert forall|k: int| 0 <= k < hash.len() implies rest[k] != ',' by {
        assert(rest[k] == hash[k]);
    }
    lemma_find_char_at(rest, ',', hash.len() as int);
    assert(rest.subrange(0, hash.len() as int) =~= hash);
    assert(rest.subrange(hash.len() as int + 1, rest.len() as int) =~= path);
    assert(line[time.len() as int] == ',');
    assert(!is_white_space(','));
    lemma_trim_start_keeps(line, time.len() as int);
    let ts = trim_start(line);
    let j = choose|j: int| 0 <= j < ts.len() && !is_white_space(#[trigger] ts[j]);
    lemma_trim_end_nonempty(ts, j);
}

/// The digest line appended last to a list of log lines is the one a search
/// for its path finds, whatever lines came before, when the time and hash
/// hold no comma or newline and the path holds no newline and no surrounding
/// white space.
pub proof fn law_appended_record_is_latest(
    lines: Seq<Seq<char>>,
    time: Seq<char>,
    hash: Seq<char>,
    path: Seq<char>,
)
    requires
        forall|i: int| 0 <= i < time.len() ==> time[i] != ',' && time[i] != '\n',
        forall|i: int| 0 <= i < hash.len() ==> hash[i] != ',' && hash[i] != '\n',
        forall|i: int| 0 <= i < path.len() ==> path[i] != '\n',
        trim(path) == path,
    ensures
        latest_hash(lines.push(spec_digest_line(time, hash, path)), path) == Some(hash),
{
    lemma_digest_line_records(time, hash, path);
    assert(lines.push(spec_digest_line(time, hash, path)).last() == spec_digest_line(time, hash, path));
}

/// The lines of a log ending in a newline, extended by a line and a newline:
/// that line, then an empty last line.
proof fn lemma_appended_line(prev: Seq<char>, line: Seq<char>)
    requires
        prev.len() == 0 || prev.last() == '\n',
        forall|i: int| 0 <= i < line.len() ==> line[i] != '\n',
    ensures
        split_lines(prev + line + seq!['\n']).len() >= 2,
        split_lines(prev + line + seq!['\n']).last() == Seq::<char>::empty(),
        split_lines(prev + line + seq!['\n']).drop_last().last() == line,
{
    lemma_split_lines_extend(prev, line);
    lemma_split_lines_nonempty(prev);
    if prev.len() > 0 {
        lemma_split_lines_nonempty(prev.drop_last());
    }
    assert(split_lines(prev).last() =~= Seq::<char>::empty());
    assert(Seq::<char>::empty() + line =~= line);
    let log = prev + line + seq!['\n'];
    assert(log.drop_last() =~= prev + line);
    assert(log.last() == '\n');
    assert(split_lines(log) == split_lines(prev + line).push(Seq::empty()));
    assert(split_lines(log).drop_last() =~= split_lines(prev + line));
}

/// Splitting a text that ends in `\n` followed by more text: the lines before
/// that newline, then the lines of the rest.
proof fn lemma_split_lines_after_newline(x: Seq<char>, y: Seq<char>)
    requires
        x.len() > 0,
        x.last() == '\n',
    ensures
        split_lines(x + y) == split_lines(x).drop_last() + split_lines(y),
    decreases y.len(),
{
    lemma_split_lines_nonempty(x.drop_last());
    if y.len() == 0 {
        assert(x + y =~= x);
        assert(split_lines(x).drop_last() + split_lines(y) =~= split_lines(x));
    } else {
        let y1 = y.drop_last();
        lemma_split_lines_after_newline(x, y1);
        lemma_split_lines_nonempty(y1);
        assert((x + y).drop_last() =~= x + y1);
        assert((x + y).last() == y.last());
        let d = split_lines(x).drop_last();
        let s1 = split_lines(y1);
        if y.last() == '\n' {
            assert((d + s1).push(Seq::empty()) =~= d + s1.push(Seq::empty()));
        } else {
            assert((d + s1).update((d + s1).len() - 1, (d + s1).last().push(y.last())) =~= d
                + s1.update(s1.len() - 1, s1.last().push(y.last())));
        }
    }
}

/// A digest line appended to the log (after the lines already there, as
/// `time,hash,path` and a newline) is what a later search for its path finds,
/// whole-text or block by block, as long as no line logged after it records
/// that path, when the time and hash hold no comma or newline and the path
/// holds no newline and no surrounding white space.
pub proof fn law_logged_line_is_found(
    prev: Seq<char>,
    time: Seq<char>,
    hash: Seq<char>,
    path: Seq<char>,
    later: Seq<char>,
)
    requires
        prev.len() == 0 || prev.last() == '\n',
        forall|i: int| 0 <= i < time.len() ==> time[i] != ',' && time[i] != '\n',
        forall|i: int| 0 <= i < hash.len() ==> hash[i] != ',' && hash[i] != '\n',
        forall|i: int| 0 <= i < path.len() ==> path[i] != '\n',
        trim(path) == path,
        latest_hash(split_lines(later), path) is None,
    ensures
        latest_hash(split_lines(prev + spec_digest_line(time, hash, path) + seq!['\n'] + later), path)
            == Some(hash),
        scan_run(
            encode_utf8(prev + spec_digest_line(time, hash, path) + seq!['\n'] + later),
            encode_utf8(prev + spec_digest_line(time, hash, path) + seq!['\n'] + later).len() as int,
            Seq::empty(),
            path,
        ) == Some(hash),
{
    let line = spec_digest_line(time, hash, path);
    lemma_digest_line_records(time, hash, path);
    lemma_appended_line(prev, line);
    let x = prev + line + seq!['\n'];
    let lines = split_lines(x);
    assert(latest_hash(lines.drop_last(), path) == Some(hash));
    assert(x.last() == '\n');
    lemma_split_lines_after_newline(x, later);
    lemma_latest_hash_concat(lines.drop_last(), split_lines(later), path);
    let log = x + later;
    law_reverse_scan_finds_latest_in_text(log, path);
}

} // verus!
