//! The pseudo-terminal session as the agent's logic sees it: its
//! lifecycle, its size, and what the reader does with each read.
//!
//! A session is opened at 80 columns by 24 rows. Each valid resize message
//! replaces the size. The reader forwards every chunk it reads unchanged;
//! at end of stream or on a read error it reports one status token and
//! stops.

use crate::resize::{TerminalResize, DEFAULT_COLS, DEFAULT_ROWS};
use crate::status::StatusToken;
use vstd::prelude::*;
use vstd::slice::slice_to_vec;

verus! {

/// Largest number of bytes that one read takes from the pseudo-terminal.
pub const READ_CHUNK: usize = 4096;

/// Seconds between the shell's exit and the start of the next epoch.
pub const SETTLE_DELAY_SECS: u64 = 2;

/// Where a session stands in its life.
#[derive(Clone, Copy, Debug, PartialEq, Eq, Structural)]
pub enum SessionPhase {
    /// The pseudo-terminal exists; the shell is not running yet.
    Created,
    /// The shell runs.
    Running,
    /// The shell's output ended.
    Exited,
    /// Reading the shell's output failed.
    Errored,
}

/// What the reader does after one read.
#[derive(Debug, PartialEq, Eq)]
pub enum ReaderStep {
    /// Hand these bytes to the output fan-out and read again.
    Forward(Vec<u8>),
    /// Hand this token to the status fan-out and stop reading.
    Finish(StatusToken),
    /// Stop reading; the session was over already.
    Stop,
}

/// The logical state of one pseudo-terminal session.
#[derive(Clone, Copy, Debug, PartialEq, Eq, Structural)]
pub struct PtySession {
    pub phase: SessionPhase,
    pub rows: u16,
    pub cols: u16,
}

/// The size of a session after a resize request: a valid request replaces
/// it, anything else leaves it alone.
pub open spec fn size_after(size: (u16, u16), request: Option<TerminalResize>) -> (u16, u16) {
    match request {
        Some(r) => if r.valid() {
            (r.rows, r.cols)
        } else {
            size
        },
        None => size,
    }
}

/// The size of a session after a series of resize requests, applied in
/// order.
pub open spec fn size_after_all(size: (u16, u16), requests: Seq<Option<TerminalResize>>) -> (
    u16,
    u16,
)
    decreases requests.len(),
{
    if requests.len() == 0 {
        size
    } else {
        size_after(size_after_all(size, requests.drop_last()), requests.last())
    }
}

impl PtySession {
    /// The session's size as `(rows, cols)`.
    pub open spec fn size(self) -> (u16, u16) {
        (self.rows, self.cols)
    }

    /// Whether the session's output has ended or failed.
    pub open spec fn over(self) -> bool {
        self.phase == SessionPhase::Exited || self.phase == SessionPhase::Errored
    }

    /// A session whose pseudo-terminal was just opened, at 24 rows by 80
    /// columns.
    pub fn open() -> (session: PtySession)
        ensures
            session.phase == SessionPhase::Created,
            session.size() == (DEFAULT_ROWS, DEFAULT_COLS),
    {
        PtySession { phase: SessionPhase::Created, rows: DEFAULT_ROWS, cols: DEFAULT_COLS }
    }

    /// Records that the shell was spawned. A session that is over stays
    /// over.
    pub fn started(&mut self)
        ensures
            final(self).size() == old(self).size(),
            final(self).phase == if old(self).phase == SessionPhase::Created {
                SessionPhase::Running
            } else {
                old(self).phase
            },
    {
        match self.phase {
            SessionPhase::Created => {
                self.phase = SessionPhase::Running;
            },
            _ => {},
        }
    }

    /// Whether the session's output has ended or failed.
    pub fn is_over(&self) -> (over: bool)
        ensures
            over == self.over(),
    {
        match self.phase {
            SessionPhase::Exited => true,
            SessionPhase::Errored => true,
            _ => false,
        }
    }

    /// Applies a resize request. A valid request replaces the size, also
    /// when it repeats the current one, and is returned for the
    /// pseudo-terminal to follow. Anything else changes nothing.
    pub fn resize(&mut self, request: Option<TerminalResize>) -> (applied: Option<TerminalResize>)
        ensures
            final(self).phase == old(self).phase,
            final(self).size() == size_after(old(self).size(), request),
            applied == match request {
                Some(r) => if r.valid() {
                    Some(r)
                } else {
                    None
                },
                None => None,
            },
            applied is None ==> *final(self) == *old(self),
    {
        match request {
            Some(r) => {
                if r.is_valid() {
                    self.rows = r.rows;
                    self.cols = r.cols;
                    Some(r)
                } else {
                    None
                }
            },
            None => None,
        }
    }

    /// Takes the result of one read: `Some` with the bytes read, which is
    /// empty at end of stream, or `None` for a read error.
    ///
    /// Bytes are forwarded exactly as read. End of stream ends the session
    /// with `shell_restarting`, an error with `shell_error_restarting`.
    /// Once the session is over, every further read only stops the reader,
    /// so each session reports one token.
    pub fn on_read(&mut self, read: Option<&[u8]>) -> (step: ReaderStep)
        ensures
            final(self).size() == old(self).size(),
            old(self).over() ==> step is Stop && *final(self) == *old(self),
            !old(self).over() ==> match read {
                Some(bytes) => if bytes@.len() == 0 {
                    &&& step == ReaderStep::Finish(StatusToken::ShellRestarting)
                    &&& final(self).phase == SessionPhase::Exited
                } else {
                    &&& step matches ReaderStep::Forward(frame)
                    &&& frame@ == bytes@
                    &&& final(self).phase == old(self).phase
                },
                None => {
                    &&& step == ReaderStep::Finish(StatusToken::ShellErrorRestarting)
                    &&& final(self).phase == SessionPhase::Errored
                },
            },
    {
        if self.is_over() {
            return ReaderStep::Stop;
        }
        match read {
            Some(bytes) => {
                if bytes.len() == 0 {
                    self.phase = SessionPhase::Exited;
                    ReaderStep::Finish(StatusToken::ShellRestarting)
                } else {
                    ReaderStep::Forward(slice_to_vec(bytes))
                }
            },
            None => {
                self.phase = SessionPhase::Errored;
                ReaderStep::Finish(StatusToken::ShellErrorRestarting)
            },
        }
    }
}

/// After a series of valid resize messages the session has the size of the
/// last one, whatever its size was before.
pub proof fn lemma_last_resize_wins(size: (u16, u16), requests: Seq<Option<TerminalResize>>)
    requires
        requests.len() > 0,
        forall|i: int| 0 <= i < requests.len() ==> (#[trigger] requests[i]) is Some && requests[i]->0.valid(),
    ensures
        size_after_all(size, requests) == (requests.last()->0.rows, requests.last()->0.cols),
{
}

/// Messages that were rejected leave the size alone, wherever they stand
/// in a series: the size is that of the series without them.
pub proof fn lemma_rejected_resize_is_skipped(
    size: (u16, u16),
    before: Seq<Option<TerminalResize>>,
    rejected: Option<TerminalResize>,
    after: Seq<Option<TerminalResize>>,
)
    requires
        rejected is None || !rejected->0.valid(),
    ensures
        size_after_all(size, before.push(rejected)) == size_after_all(size, before),
        size_after_all(size, before.push(rejected) + after) == size_after_all(size, before + after),
    decreases after.len(),
{
    assert(before.push(rejected).drop_last() =~= before);
    if after.len() == 0 {
        assert(before.push(rejected) + after =~= before.push(rejected));
        assert(before + after =~= before);
    } else {
        lemma_rejected_resize_is_skipped(size, before, rejected, after.drop_last());
        assert((before.push(rejected) + after).drop_last() =~= before.push(rejected)
            + after.drop_last());
        assert((before + after).drop_last() =~= before + after.drop_last());
    }
}

} // verus!
