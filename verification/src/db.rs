//! The records that the processor stores for each observed operation, and the
//! text forms the database and the daily hash are built from.
//!
//! The database itself (an SQLite file) is driven by the application.

use vstd::prelude::*;
use crate::text::{push_char, push_str};
use crate::uri::Uri;

verus! {

/// The kinds of operation the database accepts (its `CHECK` constraint lists
/// exactly these names).
#[derive(Debug, Clone, Copy, PartialEq, Eq, Structural)]
pub enum OperationType {
    Create,
    Modify,
    Move,
    Open,
    Append,
    Write,
}

/// The name stored for each kind of operation.
pub open spec fn spec_operation_name(op: OperationType) -> Seq<char> {
    match op {
        OperationType::Create => "Create"@,
        OperationType::Modify => "Modify"@,
        OperationType::Move => "Move"@,
        OperationType::Open => "Open"@,
        OperationType::Append => "Append"@,
        OperationType::Write => "Write"@,
    }
}

impl OperationType {
    /// The name stored in the database for this kind of operation.
    pub fn as_str(&self) -> (r: &'static str)
        ensures
            r@ == spec_operation_name(*self),
    {
        match self {
            OperationType::Create => "Create",
            OperationType::Modify => "Modify",
            OperationType::Move => "Move",
            OperationType::Open => "Open",
            OperationType::Append => "Append",
            OperationType::Write => "Write",
        }
    }
}

/// Distinct kinds of operation are stored under distinct names, so a stored
/// name identifies the operation it was written for.
pub proof fn lemma_operation_names_distinct(a: OperationType, b: OperationType)
    ensures
        spec_operation_name(a) == spec_operation_name(b) ==> a == b,
{
    reveal_strlit("Create");
    reveal_strlit("Modify");
    reveal_strlit("Move");
    reveal_strlit("Open");
    reveal_strlit("Append");
    reveal_strlit("Write");
    if spec_operation_name(a) == spec_operation_name(b) {
        let s = spec_operation_name(a);
        assert(s[0] == spec_operation_name(b)[0]);
        assert(s.len() == spec_operation_name(b).len());
        if s.len() == 6 {
            assert(s[1] == spec_operation_name(b)[1]);
        }
    }
}

/// The digest of a file at a moment: where it was and what its content hashed to.
pub struct Digest {
    pub uri: Uri,
    pub hash: String,
}

/// The model of a [`Digest`].
pub struct DigestView {
    pub uri: Seq<char>,
    pub hash: Seq<char>,
}

impl View for Digest {
    type V = DigestView;

    open spec fn view(&self) -> DigestView {
        DigestView { uri: self.uri@, hash: self.hash@ }
    }
}

/// The operation that led to a digest.
pub struct Operation {
    /// `yyyy-mm-ddThh:mm:ss.ffffff`
    pub timestamp: String,
    pub operation: OperationType,
    pub uri: Uri,
    pub src_path: Option<Uri>,
}

/// The model of an [`Operation`].
pub struct OperationView {
    pub timestamp: Seq<char>,
    pub operation: OperationType,
    pub uri: Seq<char>,
    pub src_path: Option<Seq<char>>,
}

impl View for Operation {
    type V = OperationView;

    open spec fn view(&self) -> OperationView {
        OperationView {
            timestamp: self.timestamp@,
            operation: self.operation,
            uri: self.uri@,
            src_path: match self.src_path {
                Some(u) => Some(u@),
                None => None,
            },
        }
    }
}

/// The process that performed an operation, as stored.
pub struct Process {
    /// `yyyy-mm-dd hh:mm:ss`, empty when the start time is out of range.
    pub starttime: String,
    pub pid: i32,
    pub ppid: i32,
    pub exe: String,
    pub cmd: String,
}

/// The model of a [`Process`].
pub struct ProcessView {
    pub starttime: Seq<char>,
    pub pid: i32,
    pub ppid: i32,
    pub exe: Seq<char>,
    pub cmd: Seq<char>,
}

impl View for Process {
    type V = ProcessView;

    open spec fn view(&self) -> ProcessView {
        ProcessView {
            starttime: self.starttime@,
            pid: self.pid,
            ppid: self.ppid,
            exe: self.exe@,
            cmd: self.cmd@,
        }
    }
}

/// One stored digest as a line of evidence: `created_at,uri,hash`.
pub open spec fn spec_entry_line(created_at: Seq<char>, uri: Seq<char>, hash: Seq<char>) -> Seq<
    char,
> {
    created_at + seq![','] + uri + seq![','] + hash
}

/// Formats one stored digest as a line of evidence, `created_at,uri,hash`.
pub fn format_entry(created_at: &str, uri: &str, hash: &str) -> (r: String)
    ensures
        r@ == spec_entry_line(created_at@, uri@, hash@),
{
    let mut r = String::new();
    push_str(&mut r, created_at);
    push_char(&mut r, ',');
    push_str(&mut r, uri);
    push_char(&mut r, ',');
    push_str(&mut r, hash);
    assert(r@ =~= spec_entry_line(created_at@, uri@, hash@));
    r
}

} // verus!
