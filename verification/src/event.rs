//! The events that flow from the watchers through the adapter to the processor.

use vstd::prelude::*;
use crate::db::OperationType;
use crate::uri::Uri;

verus! {

/// A file operation, in the form every watcher reports it.
pub enum CanonicalEvent {
    Create { uri: Uri, time: String },
    Modify { uri: Uri, time: String },
    Move { src: Uri, dst: Uri, time: String },
    Write { uri: Uri, content: Vec<u8>, time: String },
    Open { uri: Uri, time: String },
    Append { uri: Uri, content: Vec<u8>, time: String },
}

/// The mathematical model of a [`CanonicalEvent`]: URIs, times and contents
/// by their views.
pub enum EventView {
    Create { uri: Seq<char>, time: Seq<char> },
    Modify { uri: Seq<char>, time: Seq<char> },
    Move { src: Seq<char>, dst: Seq<char>, time: Seq<char> },
    Write { uri: Seq<char>, content: Seq<u8>, time: Seq<char> },
    Open { uri: Seq<char>, time: Seq<char> },
    Append { uri: Seq<char>, content: Seq<u8>, time: Seq<char> },
}

impl View for CanonicalEvent {
    type V = EventView;

    open spec fn view(&self) -> EventView {
        match self {
            CanonicalEvent::Create { uri, time } => EventView::Create { uri: uri@, time: time@ },
            CanonicalEvent::Modify { uri, time } => EventView::Modify { uri: uri@, time: time@ },
            CanonicalEvent::Move { src, dst, time } => EventView::Move {
                src: src@,
                dst: dst@,
                time: time@,
            },
            CanonicalEvent::Write { uri, content, time } => EventView::Write {
                uri: uri@,
                content: content@,
                time: time@,
            },
            CanonicalEvent::Open { uri, time } => EventView::Open { uri: uri@, time: time@ },
            CanonicalEvent::Append { uri, content, time } => EventView::Append {
                uri: uri@,
                content: content@,
                time: time@,
            },
        }
    }
}

/// The view of an optional event.
pub open spec fn opt_event_view(e: Option<CanonicalEvent>) -> Option<EventView> {
    match e {
        Some(x) => Some(x@),
        None => None,
    }
}

/// A copy of a byte vector.
pub fn copy_bytes(v: &Vec<u8>) -> (r: Vec<u8>)
    ensures
        r@ == v@,
{
    let mut r: Vec<u8> = Vec::new();
    let mut i: usize = 0;
    while i < v.len()
        invariant
            i <= v.len(),
            r@ == v@.take(i as int),
        decreases v.len() - i,
    {
        r.push(v[i]);
        assert(v@.take(i as int).push(v@[i as int]) =~= v@.take(i + 1));
        i = i + 1;
    }
    assert(v@.take(v.len() as int) =~= v@);
    r
}

impl Clone for CanonicalEvent {
    fn clone(&self) -> (r: Self)
        ensures
            r@ == self@,
    {
        match self {
            CanonicalEvent::Create { uri, time } => CanonicalEvent::Create {
                uri: uri.clone(),
                time: time.clone(),
            },
            CanonicalEvent::Modify { uri, time } => CanonicalEvent::Modify {
                uri: uri.clone(),
                time: time.clone(),
            },
            CanonicalEvent::Move { src, dst, time } => CanonicalEvent::Move {
                src: src.clone(),
                dst: dst.clone(),
                time: time.clone(),
            },
            CanonicalEvent::Write { uri, content, time } => CanonicalEvent::Write {
                uri: uri.clone(),
                content: copy_bytes(content),
                time: time.clone(),
            },
            CanonicalEvent::Open { uri, time } => CanonicalEvent::Open {
                uri: uri.clone(),
                time: time.clone(),
            },
            CanonicalEvent::Append { uri, content, time } => CanonicalEvent::Append {
                uri: uri.clone(),
                content: copy_bytes(content),
                time: time.clone(),
            },
        }
    }
}

/// The kind of operation that an event view reports.
pub open spec fn spec_operation_type(e: EventView) -> OperationType {
    match e {
        EventView::Create { .. } => OperationType::Create,
        EventView::Modify { .. } => OperationType::Modify,
        EventView::Move { .. } => OperationType::Move,
        EventView::Write { .. } => OperationType::Write,
        EventView::Open { .. } => OperationType::Open,
        EventView::Append { .. } => OperationType::Append,
    }
}

impl CanonicalEvent {
    /// The kind of operation this event reports.
    pub fn operation_type(&self) -> (r: OperationType)
        ensures
            r == spec_operation_type(self@),
    {
        match self {
            CanonicalEvent::Create { .. } => OperationType::Create,
            CanonicalEvent::Modify { .. } => OperationType::Modify,
            CanonicalEvent::Move { .. } => OperationType::Move,
            CanonicalEvent::Write { .. } => OperationType::Write,
            CanonicalEvent::Open { .. } => OperationType::Open,
            CanonicalEvent::Append { .. } => OperationType::Append,
        }
    }
}

/// The process that performed an operation, as the FUSE watcher sees it.
pub struct ProcessInfo {
    pub start_time: u64,
    pub pid: i32,
    pub ppid: i32,
    pub exe: String,
    pub cmd: String,
}

/// The mathematical model of a [`ProcessInfo`].
pub struct ProcessInfoView {
    pub start_time: u64,
    pub pid: i32,
    pub ppid: i32,
    pub exe: Seq<char>,
    pub cmd: Seq<char>,
}

impl View for ProcessInfo {
    type V = ProcessInfoView;

    open spec fn view(&self) -> ProcessInfoView {
        ProcessInfoView {
            start_time: self.start_time,
            pid: self.pid,
            ppid: self.ppid,
            exe: self.exe@,
            cmd: self.cmd@,
        }
    }
}

impl Clone for ProcessInfo {
    fn clone(&self) -> (r: Self)
        ensures
            r@ == self@,
    {
        ProcessInfo {
            start_time: self.start_time,
            pid: self.pid,
            ppid: self.ppid,
            exe: self.exe.clone(),
            cmd: self.cmd.clone(),
        }
    }
}

/// The view of an optional process description.
pub open spec fn opt_process_view(p: Option<ProcessInfo>) -> Option<ProcessInfoView> {
    match p {
        Some(x) => Some(x@),
        None => None,
    }
}

/// An event together with the process that caused it, when known.
pub struct FileEvent {
    pub event: CanonicalEvent,
    pub process_info: Option<ProcessInfo>,
}

/// The mathematical model of a [`FileEvent`].
pub struct FileEventView {
    pub event: EventView,
    pub process_info: Option<ProcessInfoView>,
}

impl View for FileEvent {
    type V = FileEventView;

    open spec fn view(&self) -> FileEventView {
        FileEventView { event: self.event@, process_info: opt_process_view(self.process_info) }
    }
}

impl Clone for FileEvent {
    fn clone(&self) -> (r: Self)
        ensures
            r@ == self@,
    {
        let process_info = match &self.process_info {
            Some(p) => Some(p.clone()),
            None => None,
        };
        FileEvent { event: self.event.clone(), process_info }
    }
}

} // verus!
