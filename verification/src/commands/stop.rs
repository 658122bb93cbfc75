//! `canis stop`: reading the daemon's PID file, and the shutdown protocol.
//!
//! The shutdown alternates signals and waits (done by the application) with
//! decisions: [`StopRun::start`] and [`StopRun::step`] are those decisions.
//! The daemon gets `SIGTERM`, then up to ten checks half a second apart; if it
//! is still running after them it gets `SIGKILL`.

use vstd::prelude::*;
use crate::error::WatcherError;
use crate::text::{chars_of, to_owned_string, trim, trim_chars};

verus! {

/// A decimal digit.
pub open spec fn is_digit(c: char) -> bool {
    '0' <= c <= '9'
}

/// All characters are decimal digits.
pub open spec fn all_digits(s: Seq<char>) -> bool {
    forall|i: int| 0 <= i < s.len() ==> is_digit(#[trigger] s[i])
}

/// The value of a string of decimal digits.
pub open spec fn digits_value(s: Seq<char>) -> int
    decreases s.len(),
{
    if s.len() == 0 {
        0
    } else {
        digits_value(s.drop_last()) * 10 + (s.last() as int - '0' as int)
    }
}

/// What `str::parse::<i32>` reads: an optional `+` or `-`, then at least one
/// decimal digit, with the value in range.
pub open spec fn spec_parse_i32(s: Seq<char>) -> Option<i32> {
    let signed = s.len() > 0 && (s[0] == '+' || s[0] == '-');
    let digits = if signed {
        s.drop_first()
    } else {
        s
    };
    if digits.len() == 0 || !all_digits(digits) {
        None
    } else {
        let v = if signed && s[0] == '-' {
            -digits_value(digits)
        } else {
            digits_value(digits)
        };
        if i32::MIN <= v <= i32::MAX {
            Some(v as i32)
        } else {
            None
        }
    }
}

proof fn lemma_digits_value_monotone(s: Seq<char>, i: int)
    requires
        0 <= i <= s.len(),
        all_digits(s),
    ensures
        digits_value(s) >= digits_value(s.take(i)),
        digits_value(s.take(i)) >= 0,
    decreases s.len(),
{
    if s.len() > 0 {
        let s1 = s.drop_last();
        assert forall|k: int| 0 <= k < s1.len() implies is_digit(#[trigger] s1[k]) by {
            assert(s1[k] == s[k]);
        }
        if i == s.len() {
            assert(s.take(i) =~= s);
            lemma_digits_value_monotone(s1, s1.len() as int);
            assert(s1.take(s1.len() as int) =~= s1);
        } else {
            lemma_digits_value_monotone(s1, i);
            assert(s1.take(i) =~= s.take(i));
            lemma_digits_value_monotone(s1, s1.len() as int);
            assert(s1.take(s1.len() as int) =~= s1);
            assert(is_digit(s[s.len() - 1]));
        }
    }
}

/// Reads a decimal `i32` (`str::parse::<i32>`).
pub fn parse_i32(s: &[char]) -> (r: Option<i32>)
    ensures
        r == spec_parse_i32(s@),
{
    let signed = s.len() > 0 && (s[0] == '+' || s[0] == '-');
    let negative = signed && s[0] == '-';
    let start: usize = if signed {
        1
    } else {
        0
    };
    let ghost digits = if signed {
        s@.drop_first()
    } else {
        s@
    };
    assert(digits =~= s@.subrange(start as int, s@.len() as int));
    if start >= s.len() {
        return None;
    }
    let mut acc: u64 = 0;
    let mut i: usize = start;
    while i < s.len()
        invariant
            start <= i <= s.len(),
            start < s.len(),
            digits =~= s@.subrange(start as int, s@.len() as int),
            digits == (if s@.len() > 0 && (s@[0] == '+' || s@[0] == '-') {
                s@.drop_first()
            } else {
                s@
            }),
            all_digits(digits.take(i - start)),
            acc as int == digits_value(digits.take(i - start)),
            acc <= 2147483648,
        decreases s.len() - i,
    {
        let c = s[i];
        if !('0' <= c && c <= '9') {
            assert(digits[i - start] == c);
            assert(!is_digit(digits[i - start]));
            return None;
        }
        let d = (c as u32 - '0' as u32) as u64;
        assert(d as int == c as int - '0' as int);
        let next = acc * 10 + d;
        let ghost pre = digits.take(i - start);
        let ghost post = digits.take(i - start + 1);
        assert(post.drop_last() =~= pre);
        assert(post.last() == c);
        assert(digits_value(post) == digits_value(pre) * 10 + (c as int - '0' as int));
        assert forall|k: int| 0 <= k < post.len() implies is_digit(#[trigger] post[k]) by {
            if k < pre.len() {
                assert(post[k] == pre[k]);
            }
        }
        assert(next as int == digits_value(post));
        if next > 2147483648 {
            proof {
                let rest_ok = all_digits(digits);
                if rest_ok {
                    lemma_digits_value_monotone(digits, i - start + 1);
                    assert(digits_value(digits) > 2147483648);
                }
            }
            return None;
        }
        acc = next;
        i = i + 1;
    }
    assert(digits.take(s.len() - start) =~= digits);
    let v: i64 = if negative {
        -(acc as i64)
    } else {
        acc as i64
    };
    if v < -2147483648 || v > 2147483647 {
        None
    } else {
        Some(v as i32)
    }
}

/// The process id a PID file holds: its text, trimmed, read as an `i32`.
pub open spec fn spec_pid_file(contents: Seq<char>) -> Option<i32> {
    spec_parse_i32(trim(contents))
}

/// Reads the process id from the contents of a PID file.
pub fn parse_pid_file(contents: &str) -> (r: Result<i32, WatcherError>)
    ensures
        match spec_pid_file(contents@) {
            Some(p) => r == Ok::<i32, WatcherError>(p),
            None => r matches Err(WatcherError::Other(m)) && m@ == "Invalid PID file contents"@,
        },
{
    let cs = chars_of(contents);
    let t = trim_chars(cs.as_slice());
    match parse_i32(t.as_slice()) {
        Some(p) => Ok(p),
        None => Err(WatcherError::Other(to_owned_string("Invalid PID file contents"))),
    }
}

/// The number of checks the daemon gets after `SIGTERM`.
pub const MAX_WAIT_CHECKS: u32 = 10;

/// What the application observed.
pub enum StopInput {
    /// Whether the process exists (`kill(pid, None)`): it does, it does not
    /// (`ESRCH`), or the check itself failed.
    Probe(ProbeOutcome),
    /// Whether `SIGTERM` was delivered.
    TermSent(bool),
    /// Whether `SIGKILL` was delivered.
    KillSent(bool),
}

/// The result of checking whether the process exists.
#[derive(Debug, Clone, Copy, PartialEq, Eq, Structural)]
pub enum ProbeOutcome {
    Alive,
    NoSuchProcess,
    Failed,
}

/// What the application does next.
#[derive(Debug, Clone, Copy, PartialEq, Eq, Structural)]
pub enum StopAction {
    /// Check whether the process exists.
    Probe,
    /// Print that the process had already terminated, remove the PID file; done.
    AlreadyTerminated,
    /// Send `SIGTERM`.
    SendTerm,
    /// Print `progress` (if any), wait half a second, then check again.
    WaitThenProbe { attempt: u32, progress: Option<ProgressMark> },
    /// Print that the daemon stopped, remove the PID file; done.
    Stopped,
    /// Print `mark`, print that the process does not respond, send `SIGKILL`.
    Kill { mark: ProgressMark },
    /// Wait half a second, print that the daemon was killed, remove the PID
    /// file if it is still there; done.
    Killed,
    /// Fail with the error of the last operation, or with this message.
    Fail(FailReason),
}

/// The progress printed while waiting.
#[derive(Debug, Clone, Copy, PartialEq, Eq, Structural)]
pub enum ProgressMark {
    /// `Waiting for shutdown`
    Waiting,
    /// `.`
    Dot,
}

/// Why the shutdown failed.
#[derive(Debug, Clone, Copy, PartialEq, Eq, Structural)]
pub enum FailReason {
    /// Checking whether the process exists failed.
    ProbeFailed,
    /// `Failed to send stop signal`
    TermFailed,
    /// `Failed to forcefully terminate the process`
    KillFailed,
}

/// Where the shutdown stands.
#[derive(Debug, Clone, Copy, PartialEq, Eq, Structural)]
pub enum StopPhase {
    /// Checking that the process exists.
    Checking,
    /// `SIGTERM` was asked for.
    Terminating,
    /// Waiting; `attempt` checks were asked for so far (counting from 0).
    Waiting { attempt: u32 },
    /// `SIGKILL` was asked for.
    Killing,
    /// Over.
    Done,
}

/// The progress printed after check `attempt` found the process alive.
pub open spec fn progress_mark(attempt: u32) -> ProgressMark {
    if attempt == 0 {
        ProgressMark::Waiting
    } else {
        ProgressMark::Dot
    }
}

/// One decision of the shutdown.
pub open spec fn spec_stop_step(phase: StopPhase, input: StopInput) -> (StopPhase, StopAction) {
    match (phase, input) {
        (StopPhase::Checking, StopInput::Probe(ProbeOutcome::Alive)) => (
            StopPhase::Terminating,
            StopAction::SendTerm,
        ),
        (StopPhase::Checking, StopInput::Probe(ProbeOutcome::NoSuchProcess)) => (
            StopPhase::Done,
            StopAction::AlreadyTerminated,
        ),
        (StopPhase::Terminating, StopInput::TermSent(true)) => (
            StopPhase::Waiting { attempt: 0 },
            StopAction::WaitThenProbe { attempt: 0, progress: None },
        ),
        (StopPhase::Terminating, StopInput::TermSent(false)) => (
            StopPhase::Done,
            StopAction::Fail(FailReason::TermFailed),
        ),
        (StopPhase::Waiting { attempt }, StopInput::Probe(ProbeOutcome::Alive)) => if attempt + 1
            < MAX_WAIT_CHECKS {
            (
                StopPhase::Waiting { attempt: (attempt + 1) as u32 },
                StopAction::WaitThenProbe {
                    attempt: (attempt + 1) as u32,
                    progress: Some(progress_mark(attempt)),
                },
            )
        } else {
            (StopPhase::Killing, StopAction::Kill { mark: progress_mark(attempt) })
        },
        (StopPhase::Waiting { .. }, StopInput::Probe(_)) => (StopPhase::Done, StopAction::Stopped),
        (StopPhase::Killing, StopInput::KillSent(true)) => (StopPhase::Done, StopAction::Killed),
        (StopPhase::Killing, StopInput::KillSent(false)) => (
            StopPhase::Done,
            StopAction::Fail(FailReason::KillFailed),
        ),
        _ => (StopPhase::Done, StopAction::Fail(FailReason::ProbeFailed)),
    }
}

/// The shutdown of the daemon.
pub struct StopRun {
    phase: StopPhase,
}

impl StopRun {
    /// Where the shutdown stands.
    pub closed spec fn phase(&self) -> StopPhase {
        self.phase
    }

    /// Starts the shutdown: first check that the process exists.
    pub fn start() -> (r: (StopRun, StopAction))
        ensures
            r.0.phase() == StopPhase::Checking,
            r.1 == StopAction::Probe,
    {
        (StopRun { phase: StopPhase::Checking }, StopAction::Probe)
    }

    /// Takes what the application observed and decides what it does next.
    pub fn step(&mut self, input: StopInput) -> (action: StopAction)
        ensures
            (final(self).phase(), action) == spec_stop_step(old(self).phase(), input),
    {
        let (phase, action) = match (self.phase, input) {
            (StopPhase::Checking, StopInput::Probe(ProbeOutcome::Alive)) => (
                StopPhase::Terminating,
                StopAction::SendTerm,
            ),
            (StopPhase::Checking, StopInput::Probe(ProbeOutcome::NoSuchProcess)) => (
                StopPhase::Done,
                StopAction::AlreadyTerminated,
            ),
            (StopPhase::Terminating, StopInput::TermSent(true)) => (
                StopPhase::Waiting { attempt: 0 },
                StopAction::WaitThenProbe { attempt: 0, progress: None },
            ),
            (StopPhase::Terminating, StopInput::TermSent(false)) => (
                StopPhase::Done,
                StopAction::Fail(FailReason::TermFailed),
            ),
            (StopPhase::Waiting { attempt }, StopInput::Probe(ProbeOutcome::Alive)) => {
                let mark = if attempt == 0 {
                    ProgressMark::Waiting
                } else {
                    ProgressMark::Dot
                };
                if attempt < MAX_WAIT_CHECKS - 1 {
                    (
                        StopPhase::Waiting { attempt: attempt + 1 },
                        StopAction::WaitThenProbe { attempt: attempt + 1, progress: Some(mark) },
                    )
                } else {
                    (StopPhase::Killing, StopAction::Kill { mark })
                }
            },
            (StopPhase::Waiting { .. }, StopInput::Probe(_)) => (StopPhase::Done, StopAction::Stopped),
            (StopPhase::Killing, StopInput::KillSent(true)) => (StopPhase::Done, StopAction::Killed),
            (StopPhase::Killing, StopInput::KillSent(false)) => (
                StopPhase::Done,
                StopAction::Fail(FailReason::KillFailed),
            ),
            _ => (StopPhase::Done, StopAction::Fail(FailReason::ProbeFailed)),
        };
        self.phase = phase;
        action
    }
}

/// The phase and last action after `n` checks after `SIGTERM` all found the
/// daemon alive.
pub open spec fn alive_checks(n: nat) -> (StopPhase, StopAction)
    decreases n,
{
    if n == 0 {
        spec_stop_step(StopPhase::Terminating, StopInput::TermSent(true))
    } else {
        spec_stop_step(alive_checks((n - 1) as nat).0, StopInput::Probe(ProbeOutcome::Alive))
    }
}

/// After `SIGTERM` the daemon gets exactly ten checks, half a second apart,
/// before `SIGKILL`: fewer alive checks keep waiting, the tenth kills.
pub proof fn law_kill_only_after_ten_checks(n: nat)
    requires
        n <= 10,
    ensures
        n < 10 ==> alive_checks(n) == (
            StopPhase::Waiting { attempt: n as u32 },
            StopAction::WaitThenProbe {
                attempt: n as u32,
                progress: if n == 0 {
                    None
                } else {
                    Some(progress_mark((n - 1) as u32))
                },
            },
        ),
        n == 10 ==> alive_checks(n) == (
            StopPhase::Killing,
            StopAction::Kill { mark: ProgressMark::Dot },
        ),
    decreases n,
{
    if n > 0 {
        law_kill_only_after_ten_checks((n - 1) as nat);
    }
}

/// Once a check after `SIGTERM` finds the daemon gone, the shutdown succeeds.
pub proof fn law_gone_means_stopped(attempt: u32, outcome: ProbeOutcome)
    requires
        outcome != ProbeOutcome::Alive,
    ensures
        spec_stop_step(StopPhase::Waiting { attempt }, StopInput::Probe(outcome)) == (
            StopPhase::Done,
            StopAction::Stopped,
        ),
{
}

} // verus!
