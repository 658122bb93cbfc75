//! The processor: what is recorded for each event that reaches it.
//!
//! Recording an event alternates outside work (reading the file to hash it,
//! querying and filling the database) with decisions. The decisions are a
//! state machine: [`ProcessorObserver::begin`] starts a run for one event and
//! names the first piece of outside work; [`ProcessorRun::step`] takes the
//! outcome of that work and names the next one, until the run reports an
//! error or finishes.

use vstd::prelude::*;
use crate::dates::{spec_start_time_text, start_time_text};
use crate::db::{Digest, DigestView, Operation, OperationType, OperationView, Process, ProcessView};
use crate::error::{spec_message, WatcherError};
use crate::event::{
    spec_operation_type, CanonicalEvent, EventView, FileEvent, ProcessInfo,
    ProcessInfoView,
};
use crate::hashing::{hash_bytes, spec_digest_text};
use crate::text::{concat2, concat4, str_eq};
use crate::uri::{spec_scheme, spec_url_to_file_path, Uri};

verus! {

/// The file to read for hashing the content at `uri`, or the message of the
/// error that prevents it: only `file` URLs can be hashed.
pub open spec fn spec_file_to_hash(uri: Seq<char>) -> Result<Seq<char>, Seq<char>> {
    if spec_scheme(uri) == "file"@ {
        match spec_url_to_file_path(uri) {
            Some(p) => Ok(p),
            None => Err("URI conversion failed: "@ + uri),
        }
    } else {
        Err("Unsupported system: "@ + "Unsupported scheme for hash computation: "@ + spec_scheme(uri))
    }
}

/// The file to read for hashing the content at `uri`.
pub fn file_to_hash(uri: &Uri) -> (r: Result<String, WatcherError>)
    ensures
        match spec_file_to_hash(uri@) {
            Ok(p) => r matches Ok(x) && x@ == p,
            Err(m) => r matches Err(e) && spec_message(e) == m,
        },
{
    let scheme = uri.scheme();
    if str_eq(scheme.as_str(), "file") {
        match uri.to_file_path() {
            Some(p) => Ok(p),
            None => Err(WatcherError::UriFailed(uri.to_text())),
        }
    } else {
        Err(
            WatcherError::UnsupportedSystem(
                concat2("Unsupported scheme for hash computation: ", scheme.as_str()),
            ),
        )
    }
}

/// The message printed when an event cannot be recorded.
pub open spec fn spec_failure_message(uri: Seq<char>, error: Seq<char>) -> Seq<char> {
    "Unexpected error while processing: "@ + uri + " - "@ + error
}

/// The message of a failed read of the file to hash.
pub open spec fn spec_read_failure(path: Seq<char>, io: Seq<char>) -> Seq<char> {
    "Hash computation error: "@ + ("Failed to read file "@ + path + ": "@ + io)
}

/// What a run asks of the outside world next.
pub enum ProcessorAction {
    /// Read the file at `path`; answer with [`ProcessorInput::FileRead`].
    ReadFile { path: String },
    /// Look up the hash last recorded for `uri`; answer with [`ProcessorInput::LatestHash`].
    LookupLatestHash { uri: String },
    /// Store a digest; answer with [`ProcessorInput::DigestInserted`].
    InsertDigest { digest: Digest },
    /// Store an operation under a stored digest; answer with [`ProcessorInput::OperationInserted`].
    InsertOperation { digest_id: i64, operation: Operation },
    /// Store the process that performed a stored operation; answer with
    /// [`ProcessorInput::ProcessInserted`].
    InsertProcess { operation_id: i64, process: Process },
    /// Print the message on the error stream; the run is over.
    Report { message: String },
    /// The run is over.
    Finish,
}

/// The outcome of the outside work a run asked for.
pub enum ProcessorInput {
    /// The file's bytes, or the message of the I/O error.
    FileRead(Result<Vec<u8>, String>),
    /// The hash last recorded for the URI, if any, or the database error's message.
    LatestHash(Result<Option<String>, String>),
    /// The row id of the stored digest.
    DigestInserted(i64),
    /// The row id of the stored operation.
    OperationInserted(i64),
    /// Success, or the database error's message.
    ProcessInserted(Result<(), String>),
}

/// The model of a [`ProcessorAction`].
pub enum ActionView {
    ReadFile(Seq<char>),
    LookupLatestHash(Seq<char>),
    InsertDigest(DigestView),
    InsertOperation(i64, OperationView),
    InsertProcess(i64, ProcessView),
    Report(Seq<char>),
    Finish,
}

/// The model of a [`ProcessorInput`].
pub enum InputView {
    FileRead(Result<Seq<u8>, Seq<char>>),
    LatestHash(Result<Option<Seq<char>>, Seq<char>>),
    DigestInserted(i64),
    OperationInserted(i64),
    ProcessInserted(Result<(), Seq<char>>),
}

impl View for ProcessorAction {
    type V = ActionView;

    open spec fn view(&self) -> ActionView {
        match self {
            ProcessorAction::ReadFile { path } => ActionView::ReadFile(path@),
            ProcessorAction::LookupLatestHash { uri } => ActionView::LookupLatestHash(uri@),
            ProcessorAction::InsertDigest { digest } => ActionView::InsertDigest(digest@),
            ProcessorAction::InsertOperation { digest_id, operation } => ActionView::InsertOperation(
                *digest_id,
                operation@,
            ),
            ProcessorAction::InsertProcess { operation_id, process } => ActionView::InsertProcess(
                *operation_id,
                process@,
            ),
            ProcessorAction::Report { message } => ActionView::Report(message@),
            ProcessorAction::Finish => ActionView::Finish,
        }
    }
}

impl View for ProcessorInput {
    type V = InputView;

    open spec fn view(&self) -> InputView {
        match self {
            ProcessorInput::FileRead(r) => InputView::FileRead(
                match r {
                    Ok(b) => Ok(b@),
                    Err(m) => Err(m@),
                },
            ),
            ProcessorInput::LatestHash(r) => InputView::LatestHash(
                match r {
                    Ok(Some(h)) => Ok(Some(h@)),
                    Ok(None) => Ok(None),
                    Err(m) => Err(m@),
                },
            ),
            ProcessorInput::DigestInserted(id) => InputView::DigestInserted(*id),
            ProcessorInput::OperationInserted(id) => InputView::OperationInserted(*id),
            ProcessorInput::ProcessInserted(r) => InputView::ProcessInserted(
                match r {
                    Ok(()) => Ok(()),
                    Err(m) => Err(m@),
                },
            ),
        }
    }
}

/// Where a run stands.
pub enum PhaseView {
    /// Waiting for the bytes of the file at `path`, whose digest will be
    /// recorded under `target`; failures are reported against `report`.
    HashingFile {
        target: Seq<char>,
        moved_from: Option<Seq<char>>,
        time: Seq<char>,
        op: OperationType,
        report: Seq<char>,
        path: Seq<char>,
    },
    /// Waiting for the hash last recorded for `src`.
    LookingUp { src: Seq<char>, dst: Seq<char>, time: Seq<char> },
    /// Waiting for the id of the stored digest; `operation` is stored next.
    InsertingDigest { operation: OperationView },
    /// Waiting for the id of the stored operation.
    InsertingOperation,
    /// Waiting for the process row to be stored.
    InsertingProcess,
    /// The run is over.
    Done,
}

/// Asking for the bytes of the file behind `target`, or reporting why that
/// cannot be done.
pub open spec fn spec_hash_phase(
    target: Seq<char>,
    src: Option<Seq<char>>,
    time: Seq<char>,
    op: OperationType,
    report: Seq<char>,
) -> (PhaseView, ActionView) {
    match spec_file_to_hash(target) {
        Ok(path) => (
            PhaseView::HashingFile { target, moved_from: src, time, op, report, path },
            ActionView::ReadFile(path),
        ),
        Err(m) => (PhaseView::Done, ActionView::Report(spec_failure_message(report, m))),
    }
}

/// How a run starts for an event: `Create` and `Modify` hash the file;
/// `Move` first looks for the hash recorded for its source; the other
/// operations are not recorded.
pub open spec fn spec_begin(e: EventView) -> (PhaseView, ActionView) {
    match e {
        EventView::Create { uri, time } => spec_hash_phase(
            uri,
            None,
            time,
            OperationType::Create,
            uri,
        ),
        EventView::Modify { uri, time } => spec_hash_phase(
            uri,
            None,
            time,
            OperationType::Modify,
            uri,
        ),
        EventView::Move { src, dst, time } => (
            PhaseView::LookingUp { src, dst, time },
            ActionView::LookupLatestHash(src),
        ),
        _ => (PhaseView::Done, ActionView::Finish),
    }
}

/// Storing a digest, then the operation that led to it.
pub open spec fn spec_store(
    uri: Seq<char>,
    hash: Seq<char>,
    time: Seq<char>,
    op: OperationType,
    src: Option<Seq<char>>,
) -> (PhaseView, ActionView) {
    (
        PhaseView::InsertingDigest {
            operation: OperationView { timestamp: time, operation: op, uri, src_path: src },
        },
        ActionView::InsertDigest(DigestView { uri, hash }),
    )
}

/// The process row stored for an operation.
pub open spec fn spec_process_row(p: ProcessInfoView) -> ProcessView {
    ProcessView {
        starttime: spec_start_time_text(p.start_time),
        pid: p.pid,
        ppid: p.ppid,
        exe: p.exe,
        cmd: p.cmd,
    }
}

/// One step of a run: from where it stands and the outcome of the outside
/// work it asked for, to where it stands next and what it asks next. An
/// outcome the run did not ask for ends it.
pub open spec fn spec_step(phase: PhaseView, info: Option<ProcessInfoView>, input: InputView) -> (
    PhaseView,
    ActionView,
) {
    match (phase, input) {
        (
            PhaseView::HashingFile { target, moved_from, time, op, report, path },
            InputView::FileRead(Ok(bytes)),
        ) => spec_store(target, spec_digest_text(bytes), time, op, moved_from),
        (
            PhaseView::HashingFile { target, moved_from, time, op, report, path },
            InputView::FileRead(Err(io)),
        ) => (
            PhaseView::Done,
            ActionView::Report(spec_failure_message(report, spec_read_failure(path, io))),
        ),
        (PhaseView::LookingUp { src, dst, time }, InputView::LatestHash(Ok(Some(hash)))) => spec_store(
            dst,
            hash,
            time,
            OperationType::Move,
            Some(src),
        ),
        (PhaseView::LookingUp { src, dst, time }, InputView::LatestHash(Ok(None))) => spec_hash_phase(
            dst,
            Some(src),
            time,
            OperationType::Move,
            src,
        ),
        (PhaseView::LookingUp { src, dst, time }, InputView::LatestHash(Err(m))) => (
            PhaseView::Done,
            ActionView::Report(spec_failure_message(src, m)),
        ),
        (PhaseView::InsertingDigest { operation }, InputView::DigestInserted(id)) => (
            PhaseView::InsertingOperation,
            ActionView::InsertOperation(id, operation),
        ),
        (PhaseView::InsertingOperation, InputView::OperationInserted(id)) => match info {
            Some(p) => (PhaseView::InsertingProcess, ActionView::InsertProcess(id, spec_process_row(p))),
            None => (PhaseView::Done, ActionView::Finish),
        },
        (PhaseView::InsertingProcess, InputView::ProcessInserted(Err(m))) => (
            PhaseView::Done,
            ActionView::Report("insert_process error: "@ + m),
        ),
        _ => (PhaseView::Done, ActionView::Finish),
    }
}

enum Phase {
    HashingFile {
        target: Uri,
        moved_from: Option<Uri>,
        time: String,
        op: OperationType,
        report: Uri,
        path: String,
    },
    LookingUp { src: Uri, dst: Uri, time: String },
    InsertingDigest { operation: Operation },
    InsertingOperation,
    InsertingProcess,
    Done,
}

impl View for Phase {
    type V = PhaseView;

    closed spec fn view(&self) -> PhaseView {
        match self {
            Phase::HashingFile { target, moved_from, time, op, report, path } => PhaseView::HashingFile {
                target: target@,
                moved_from: match moved_from {
                    Some(u) => Some(u@),
                    None => None,
                },
                time: time@,
                op: *op,
                report: report@,
                path: path@,
            },
            Phase::LookingUp { src, dst, time } => PhaseView::LookingUp {
                src: src@,
                dst: dst@,
                time: time@,
            },
            Phase::InsertingDigest { operation } => PhaseView::InsertingDigest {
                operation: operation@,
            },
            Phase::InsertingOperation => PhaseView::InsertingOperation,
            Phase::InsertingProcess => PhaseView::InsertingProcess,
            Phase::Done => PhaseView::Done,
        }
    }
}

/// Recording one event.
pub struct ProcessorRun {
    phase: Phase,
    process_info: Option<ProcessInfo>,
}

impl ProcessorRun {
    /// Where the run stands.
    pub closed spec fn phase(&self) -> PhaseView {
        self.phase@
    }

    /// The process that performed the event, as the run keeps it.
    pub closed spec fn info(&self) -> Option<ProcessInfoView> {
        match self.process_info {
            Some(p) => Some(p@),
            None => None,
        }
    }

    /// The run is over.
    pub fn is_done(&self) -> (r: bool)
        ensures
            r == (self.phase() is Done),
    {
        match self.phase {
            Phase::Done => true,
            _ => false,
        }
    }

    /// Asks for the file behind `target` to be read, or reports why it cannot be.
    fn hash_phase(
        target: Uri,
        src: Option<Uri>,
        time: String,
        op: OperationType,
        report: Uri,
    ) -> (r: (Phase, ProcessorAction))
        ensures
            (r.0@, r.1@) == spec_hash_phase(
                target@,
                match src {
                    Some(u) => Some(u@),
                    None => None,
                },
                time@,
                op,
                report@,
            ),
    {
        match file_to_hash(&target) {
            Ok(path) => {
                let action = ProcessorAction::ReadFile { path: path.clone() };
                (Phase::HashingFile { target, moved_from: src, time, op, report, path }, action)
            },
            Err(e) => {
                let m = e.message();
                let message = concat4(
                    "Unexpected error while processing: ",
                    report.as_str(),
                    " - ",
                    m.as_str(),
                );
                (Phase::Done, ProcessorAction::Report { message })
            },
        }
    }

    /// Asks for a digest to be stored, and keeps the operation to store after it.
    fn store(uri: Uri, hash: String, time: String, op: OperationType, src: Option<Uri>) -> (r: (
        Phase,
        ProcessorAction,
    ))
        ensures
            (r.0@, r.1@) == spec_store(
                uri@,
                hash@,
                time@,
                op,
                match src {
                    Some(u) => Some(u@),
                    None => None,
                },
            ),
    {
        let digest = Digest { uri: uri.clone(), hash };
        let operation = Operation { timestamp: time, operation: op, uri, src_path: src };
        (Phase::InsertingDigest { operation }, ProcessorAction::InsertDigest { digest })
    }

    /// Takes the outcome of the outside work the run asked for and says what
    /// to do next.
    pub fn step(&mut self, input: ProcessorInput) -> (action: ProcessorAction)
        ensures
            (final(self).phase(), action@) == spec_step(old(self).phase(), old(self).info(), input@),
            final(self).info() == old(self).info(),
    {
        let mut phase = Phase::Done;
        std::mem::swap(&mut phase, &mut self.phase);
        match (phase, input) {
            (
                Phase::HashingFile { target, moved_from, time, op, report, path },
                ProcessorInput::FileRead(Ok(bytes)),
            ) => {
                let hash = hash_bytes(bytes.as_slice());
                let (p, a) = Self::store(target, hash, time, op, moved_from);
                self.phase = p;
                a
            },
            (
                Phase::HashingFile { target, moved_from, time, op, report, path },
                ProcessorInput::FileRead(Err(io)),
            ) => {
                let detail = concat4("Failed to read file ", path.as_str(), ": ", io.as_str());
                let e = WatcherError::HashError(detail);
                let m = e.message();
                let message = concat4(
                    "Unexpected error while processing: ",
                    report.as_str(),
                    " - ",
                    m.as_str(),
                );
                ProcessorAction::Report { message }
            },
            (Phase::LookingUp { src, dst, time }, ProcessorInput::LatestHash(Ok(Some(hash)))) => {
                let (p, a) = Self::store(dst, hash, time, OperationType::Move, Some(src));
                self.phase = p;
                a
            },
            (Phase::LookingUp { src, dst, time }, ProcessorInput::LatestHash(Ok(None))) => {
                let report = src.clone();
                let (p, a) = Self::hash_phase(dst, Some(src), time, OperationType::Move, report);
                self.phase = p;
                a
            },
            (Phase::LookingUp { src, dst, time }, ProcessorInput::LatestHash(Err(m))) => {
                let message = concat4(
                    "Unexpected error while processing: ",
                    src.as_str(),
                    " - ",
                    m.as_str(),
                );
                ProcessorAction::Report { message }
            },
            (Phase::InsertingDigest { operation }, ProcessorInput::DigestInserted(id)) => {
                self.phase = Phase::InsertingOperation;
                ProcessorAction::InsertOperation { digest_id: id, operation }
            },
            (Phase::InsertingOperation, ProcessorInput::OperationInserted(id)) => {
                match &self.process_info {
                    Some(p) => {
                        let process = Process {
                            starttime: start_time_text(p.start_time),
                            pid: p.pid,
                            ppid: p.ppid,
                            exe: p.exe.clone(),
                            cmd: p.cmd.clone(),
                        };
                        self.phase = Phase::InsertingProcess;
                        ProcessorAction::InsertProcess { operation_id: id, process }
                    },
                    None => ProcessorAction::Finish,
                }
            },
            (Phase::InsertingProcess, ProcessorInput::ProcessInserted(Err(m))) => {
                ProcessorAction::Report { message: concat2("insert_process error: ", m.as_str()) }
            },
            _ => ProcessorAction::Finish,
        }
    }
}

/// The processor: it records a digest and an operation (and, when known, the
/// process) for each `Create`, `Modify` and `Move` it observes.
pub struct ProcessorObserver {}

impl ProcessorObserver {
    /// A processor.
    pub fn new() -> (r: ProcessorObserver) {
        ProcessorObserver {  }
    }

    /// Starts recording an event: the run, and the first thing it asks for.
    pub fn begin(&self, event: &FileEvent) -> (r: (ProcessorRun, ProcessorAction))
        ensures
            (r.0.phase(), r.1@) == spec_begin(event@.event),
            r.0.info() == event@.process_info,
    {
        let process_info = match &event.process_info {
            Some(p) => Some(p.clone()),
            None => None,
        };
        let (phase, action) = match &event.event {
            CanonicalEvent::Create { uri, time } => ProcessorRun::hash_phase(
                uri.clone(),
                None,
                time.clone(),
                OperationType::Create,
                uri.clone(),
            ),
            CanonicalEvent::Modify { uri, time } => ProcessorRun::hash_phase(
                uri.clone(),
                None,
                time.clone(),
                OperationType::Modify,
                uri.clone(),
            ),
            CanonicalEvent::Move { src, dst, time } => {
                let action = ProcessorAction::LookupLatestHash { uri: src.to_text() };
                (Phase::LookingUp { src: src.clone(), dst: dst.clone(), time: time.clone() }, action)
            },
            _ => (Phase::Done, ProcessorAction::Finish),
        };
        (ProcessorRun { phase, process_info }, action)
    }
}

/// A moved file keeps the evidence of its source: when a hash is recorded for
/// the source, the destination's digest carries that hash, and the operation
/// stored under it is a `Move` from the source.
pub proof fn law_move_inherits_recorded_hash(
    src: Seq<char>,
    dst: Seq<char>,
    time: Seq<char>,
    hash: Seq<char>,
    info: Option<ProcessInfoView>,
    id: i64,
)
    ensures
        ({
            let (p1, a1) = spec_begin(EventView::Move { src, dst, time });
            let (p2, a2) = spec_step(p1, info, InputView::LatestHash(Ok(Some(hash))));
            let (p3, a3) = spec_step(p2, info, InputView::DigestInserted(id));
            &&& a1 == ActionView::LookupLatestHash(src)
            &&& a2 == ActionView::InsertDigest(DigestView { uri: dst, hash })
            &&& a3 == ActionView::InsertOperation(
                id,
                OperationView {
                    timestamp: time,
                    operation: OperationType::Move,
                    uri: dst,
                    src_path: Some(src),
                },
            )
        }),
{
}

/// A moved file with no recorded source is hashed at its destination.
pub proof fn law_move_without_history_hashes_destination(
    src: Seq<char>,
    dst: Seq<char>,
    time: Seq<char>,
    bytes: Seq<u8>,
    info: Option<ProcessInfoView>,
)
    requires
        spec_file_to_hash(dst) is Ok,
    ensures
        ({
            let (p1, a1) = spec_begin(EventView::Move { src, dst, time });
            let (p2, a2) = spec_step(p1, info, InputView::LatestHash(Ok(None)));
            let (p3, a3) = spec_step(p2, info, InputView::FileRead(Ok(bytes)));
            &&& a2 == ActionView::ReadFile(spec_file_to_hash(dst)->Ok_0)
            &&& a3 == ActionView::InsertDigest(DigestView { uri: dst, hash: spec_digest_text(bytes) })
            &&& p3 == PhaseView::InsertingDigest {
                operation: OperationView {
                    timestamp: time,
                    operation: OperationType::Move,
                    uri: dst,
                    src_path: Some(src),
                },
            }
        }),
{
}

/// A created or modified file is recorded with the digest of the bytes read
/// from it, under its own URI, followed by an operation of the event's kind.
pub proof fn law_written_file_records_content_digest(
    e: EventView,
    bytes: Seq<u8>,
    info: Option<ProcessInfoView>,
    id: i64,
)
    requires
        e is Create || e is Modify,
        e is Create ==> spec_file_to_hash(e->Create_uri) is Ok,
        e is Modify ==> spec_file_to_hash(e->Modify_uri) is Ok,
    ensures
        ({
            let uri = if e is Create { e->Create_uri } else { e->Modify_uri };
            let time = if e is Create { e->Create_time } else { e->Modify_time };
            let (p1, a1) = spec_begin(e);
            let (p2, a2) = spec_step(p1, info, InputView::FileRead(Ok(bytes)));
            let (p3, a3) = spec_step(p2, info, InputView::DigestInserted(id));
            &&& a1 == ActionView::ReadFile(spec_file_to_hash(uri)->Ok_0)
            &&& a2 == ActionView::InsertDigest(DigestView { uri, hash: spec_digest_text(bytes) })
            &&& a3 == ActionView::InsertOperation(
                id,
                OperationView {
                    timestamp: time,
                    operation: spec_operation_type(e),
                    uri,
                    src_path: None,
                },
            )
        }),
{
}

/// Writes, appends and opens are not recorded by the processor.
pub proof fn law_unrecorded_operations(e: EventView)
    requires
        e is Write || e is Append || e is Open,
    ensures
        spec_begin(e) == (PhaseView::Done, ActionView::Finish),
{
}

/// A finished run stays finished, whatever it is told.
pub proof fn law_done_is_final(info: Option<ProcessInfoView>, input: InputView)
    ensures
        spec_step(PhaseView::Done, info, input) == (PhaseView::Done, ActionView::Finish),
{
}

/// The operation is stored under the id of the digest just stored, and the
/// process (when known) under the id of that operation.
pub proof fn law_rows_link_to_their_parents(
    operation: OperationView,
    p: ProcessInfoView,
    digest_id: i64,
    operation_id: i64,
)
    ensures
        spec_step(
            PhaseView::InsertingDigest { operation },
            Some(p),
            InputView::DigestInserted(digest_id),
        ).1 == ActionView::InsertOperation(digest_id, operation),
        spec_step(
            PhaseView::InsertingOperation,
            Some(p),
            InputView::OperationInserted(operation_id),
        ).1 == ActionView::InsertProcess(operation_id, spec_process_row(p)),
        spec_step(
            PhaseView::InsertingOperation,
            None,
            InputView::OperationInserted(operation_id),
        ).1 == ActionView::Finish,
{
}

} // verus!
