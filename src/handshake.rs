//! The decisions of the handshake that connects a parent to a freshly launched
//! child. The caller performs each step and reports how it went; these
//! machines say what to do next, so that a failed step always aborts the whole
//! spawn and no half-connected handle escapes.
use vstd::prelude::*;

use crate::error::IpcError;

verus! {

/// Pause between two attempts to open the child's pipe, in milliseconds.
pub const POLL_INTERVAL_MS: u64 = 100;

/// How many times a parent tries to open its child's pipe before giving up.
pub const PIPE_POLL_ATTEMPTS: u32 = 300;

/// How long a client keeps trying to open a pipe that does not exist yet, in milliseconds.
pub const OPEN_TIMEOUT_MS: u64 = 20_000;

/// What a non-blocking check on the child found.
#[derive(Debug)]
pub enum ChildStatus {
    /// The child has not exited.
    Running,
    /// The child has exited, with this exit code if it had one.
    Exited(Option<i32>),
    /// The check itself failed.
    Unknown(std::io::Error),
}

/// How one attempt to open a pipe went.
#[derive(Debug)]
pub enum OpenOutcome {
    /// The pipe was opened.
    Opened,
    /// No pipe of that name exists yet.
    Missing,
    /// The operating system refused for another reason.
    Failed(std::io::Error),
}

/// What a caller polling for a pipe does next.
#[derive(Debug)]
pub enum PollStep {
    /// Try to open the pipe now.
    TryOpen,
    /// The pipe is open: the channel is ready.
    Ready,
    /// Sleep for `POLL_INTERVAL_MS`, then go on with the next round.
    SleepThenRetry,
    /// Give up with this error.
    Fail(IpcError),
}

/// The step after checking on the child, when `attempts` opens have failed so far.
pub open spec fn status_step(attempts: nat, status: ChildStatus) -> PollStep {
    if attempts >= PIPE_POLL_ATTEMPTS {
        PollStep::Fail(IpcError::TimedOut)
    } else {
        match status {
            ChildStatus::Running => PollStep::TryOpen,
            ChildStatus::Exited(code) => PollStep::Fail(IpcError::ExitedBeforeConnect(code)),
            ChildStatus::Unknown(e) => PollStep::Fail(IpcError::Io(e)),
        }
    }
}

/// The step after an attempt to open the child's pipe.
pub open spec fn open_step(outcome: OpenOutcome) -> PollStep {
    match outcome {
        OpenOutcome::Opened => PollStep::Ready,
        OpenOutcome::Missing => PollStep::SleepThenRetry,
        OpenOutcome::Failed(e) => PollStep::Fail(IpcError::Io(e)),
    }
}

/// The parent's wait for the pipe that its child creates (Windows).
///
/// Each round first checks on the child, then tries to open the pipe.
pub struct PipeWait {
    attempts: u32,
}

impl PipeWait {
    /// How many attempts to open the pipe found it missing.
    pub closed spec fn attempts(&self) -> nat {
        self.attempts as nat
    }

    pub closed spec fn wf(&self) -> bool {
        self.attempts <= PIPE_POLL_ATTEMPTS
    }

    /// A wait that has not tried anything yet.
    pub fn new() -> (r: PipeWait)
        ensures
            r.wf(),
            r.attempts() == 0,
    {
        PipeWait { attempts: 0 }
    }

    /// What to do once the child has been checked on: give up when the
    /// attempts are spent or the child is gone, else try to open the pipe.
    pub fn on_status(&self, status: ChildStatus) -> (r: PollStep)
        requires
            self.wf(),
        ensures
            r == status_step(self.attempts(), status),
    {
        if self.attempts >= PIPE_POLL_ATTEMPTS {
            return PollStep::Fail(IpcError::TimedOut);
        }
        match status {
            ChildStatus::Running => PollStep::TryOpen,
            ChildStatus::Exited(code) => PollStep::Fail(IpcError::ExitedBeforeConnect(code)),
            ChildStatus::Unknown(e) => PollStep::Fail(IpcError::Io(e)),
        }
    }

    /// What to do after an attempt to open the pipe, which `on_status` allowed.
    pub fn on_open(&mut self, outcome: OpenOutcome) -> (r: PollStep)
        requires
            old(self).wf(),
            old(self).attempts() < PIPE_POLL_ATTEMPTS,
        ensures
            final(self).wf(),
            r == open_step(outcome),
            final(self).attempts() == if outcome is Missing {
                old(self).attempts() + 1
            } else {
                old(self).attempts()
            },
    {
        match outcome {
            OpenOutcome::Opened => PollStep::Ready,
            OpenOutcome::Missing => {
                self.attempts = self.attempts + 1;
                PollStep::SleepThenRetry
            },
            OpenOutcome::Failed(e) => PollStep::Fail(IpcError::Io(e)),
        }
    }
}

/// Where a wait that has counted `attempts` missing opens ends while its
/// child keeps running and its opens go as `outcomes` says, one per round:
/// the step that ends it, or `None` if it is still waiting when the outcomes
/// run out.
pub open spec fn poll_while_running(attempts: nat, outcomes: Seq<OpenOutcome>) -> Option<PollStep>
    decreases outcomes.len(),
{
    match status_step(attempts, ChildStatus::Running) {
        PollStep::TryOpen => if outcomes.len() == 0 {
            None
        } else {
            match open_step(outcomes[0]) {
                PollStep::SleepThenRetry => poll_while_running(attempts + 1, outcomes.drop_first()),
                step => Some(step),
            }
        },
        step => Some(step),
    }
}

/// Every open that finds the pipe missing.
pub open spec fn all_missing(outcomes: Seq<OpenOutcome>) -> bool {
    forall|i: int| 0 <= i < outcomes.len() ==> #[trigger] outcomes[i] is Missing
}

/// While the child keeps running and its pipe never appears, a wait that has
/// counted `attempts` missing opens goes on retrying through the remaining
/// budget and then times out, whatever comes later: it never waits forever.
pub proof fn missing_pipe_times_out(attempts: nat, outcomes: Seq<OpenOutcome>)
    requires
        attempts <= PIPE_POLL_ATTEMPTS,
        all_missing(outcomes),
    ensures
        attempts + outcomes.len() < PIPE_POLL_ATTEMPTS ==> poll_while_running(attempts, outcomes)
            is None,
        attempts + outcomes.len() >= PIPE_POLL_ATTEMPTS ==> poll_while_running(attempts, outcomes)
            == Some(PollStep::Fail(IpcError::TimedOut)),
    decreases outcomes.len(),
{
    if attempts < PIPE_POLL_ATTEMPTS && outcomes.len() > 0 {
        assert(outcomes[0] is Missing);
        let rest = outcomes.drop_first();
        assert forall|i: int| 0 <= i < rest.len() implies #[trigger] rest[i] is Missing by {
            assert(rest[i] == outcomes[i + 1]);
        }
        missing_pipe_times_out(attempts + 1, rest);
    }
}

/// The step of a client that opens an existing pipe, `elapsed_ms` after it started.
pub open spec fn open_retry_step(outcome: OpenOutcome, elapsed_ms: nat) -> PollStep {
    match outcome {
        OpenOutcome::Opened => PollStep::Ready,
        OpenOutcome::Missing => if elapsed_ms > OPEN_TIMEOUT_MS {
            PollStep::Fail(IpcError::TimedOut)
        } else {
            PollStep::SleepThenRetry
        },
        OpenOutcome::Failed(e) => PollStep::Fail(IpcError::Io(e)),
    }
}

/// A client whose pipe never appears keeps retrying until `OPEN_TIMEOUT_MS`
/// have passed, and times out at any time after that.
pub proof fn missing_pipe_open_times_out(elapsed_ms: nat)
    ensures
        elapsed_ms <= OPEN_TIMEOUT_MS ==> open_retry_step(OpenOutcome::Missing, elapsed_ms)
            is SleepThenRetry,
        elapsed_ms > OPEN_TIMEOUT_MS ==> open_retry_step(OpenOutcome::Missing, elapsed_ms)
            == PollStep::Fail(IpcError::TimedOut),
{
}

/// What a client opening a pipe does after an attempt (Windows): retry a
/// missing pipe until `OPEN_TIMEOUT_MS` have passed, fail on any other error.
pub fn retry_open(outcome: OpenOutcome, elapsed_ms: u64) -> (r: PollStep)
    ensures
        r == open_retry_step(outcome, elapsed_ms as nat),
{
    match outcome {
        OpenOutcome::Opened => PollStep::Ready,
        OpenOutcome::Missing => {
            if elapsed_ms > OPEN_TIMEOUT_MS {
                PollStep::Fail(IpcError::TimedOut)
            } else {
                PollStep::SleepThenRetry
            }
        },
        OpenOutcome::Failed(e) => PollStep::Fail(IpcError::Io(e)),
    }
}

/// A step of the handshake in which the parent listens and the child connects (Unix).
#[derive(PartialEq, Eq, Structural, Debug, Clone, Copy)]
pub enum ListenStage {
    /// Remove a stale entry left at the token's path.
    RemoveStale,
    /// Bind a listening socket at the token's path.
    Bind,
    /// Put the token into the child's environment and launch the child.
    Launch,
    /// Wait until the child connects.
    Accept,
    /// Remove the socket's entry; a failure here is ignored.
    RemoveEntry,
    /// The channel is connected: hand out the child and its channel.
    Finish,
}

/// How the step that the caller performed went.
#[derive(Debug)]
pub enum StepReport {
    Done,
    Failed(std::io::Error),
}

/// The step that follows a successful `stage`.
pub open spec fn stage_after(stage: ListenStage) -> ListenStage {
    match stage {
        ListenStage::RemoveStale => ListenStage::Bind,
        ListenStage::Bind => ListenStage::Launch,
        ListenStage::Launch => ListenStage::Accept,
        ListenStage::Accept => ListenStage::RemoveEntry,
        ListenStage::RemoveEntry => ListenStage::Finish,
        ListenStage::Finish => ListenStage::Finish,
    }
}

/// What follows `report` on `stage`: the next step, or the error that ends the spawn.
pub open spec fn listen_step(stage: ListenStage, report: StepReport) -> Result<ListenStage, IpcError> {
    match report {
        StepReport::Failed(e) => if stage == ListenStage::RemoveEntry {
            Ok(ListenStage::Finish)
        } else {
            Err(IpcError::Io(e))
        },
        StepReport::Done => Ok(stage_after(stage)),
    }
}

/// The parent's side of the Unix handshake, as the sequence of steps it takes.
pub struct ListenHandshake {
    stage: ListenStage,
}

impl ListenHandshake {
    /// The step that the caller is to perform next.
    pub closed spec fn stage(&self) -> ListenStage {
        self.stage
    }

    /// A handshake on a token path at which an entry does or does not already exist.
    pub fn start(stale_entry: bool) -> (r: ListenHandshake)
        ensures
            r.stage() == if stale_entry {
                ListenStage::RemoveStale
            } else {
                ListenStage::Bind
            },
    {
        if stale_entry {
            ListenHandshake { stage: ListenStage::RemoveStale }
        } else {
            ListenHandshake { stage: ListenStage::Bind }
        }
    }

    /// The step that the caller is to perform next.
    pub fn current(&self) -> (r: ListenStage)
        ensures
            r == self.stage(),
    {
        self.stage
    }

    /// Takes the report of the current step. A failure of any step but the
    /// removal of the socket's entry aborts the spawn with that error; the
    /// removal is best effort and never masks the outcome.
    pub fn advance(&mut self, report: StepReport) -> (r: Result<ListenStage, IpcError>)
        requires
            old(self).stage() != ListenStage::Finish,
        ensures
            r == listen_step(old(self).stage(), report),
            r matches Ok(next) ==> final(self).stage() == next,
            r is Err ==> final(self).stage() == old(self).stage(),
    {
        match report {
            StepReport::Failed(e) => {
                if self.stage == ListenStage::RemoveEntry {
                    self.stage = ListenStage::Finish;
                    Ok(ListenStage::Finish)
                } else {
                    Err(IpcError::Io(e))
                }
            },
            StepReport::Done => {
                let next = match self.stage {
                    ListenStage::RemoveStale => ListenStage::Bind,
                    ListenStage::Bind => ListenStage::Launch,
                    ListenStage::Launch => ListenStage::Accept,
                    ListenStage::Accept => ListenStage::RemoveEntry,
                    ListenStage::RemoveEntry => ListenStage::Finish,
                    ListenStage::Finish => ListenStage::Finish,
                };
                self.stage = next;
                Ok(next)
            },
        }
    }
}

/// The handshake hands out a child and its channel only after the child has
/// connected: the last step before the end is the removal of the socket's
/// entry, and that step is reached only from an accept that succeeded.
pub proof fn finish_follows_accept(stage: ListenStage, report: StepReport)
    requires
        stage != ListenStage::Finish,
    ensures
        listen_step(stage, report) == Ok::<ListenStage, IpcError>(ListenStage::Finish) ==> stage
            == ListenStage::RemoveEntry,
        listen_step(stage, report) == Ok::<ListenStage, IpcError>(ListenStage::RemoveEntry) ==> stage
            == ListenStage::Accept && report is Done,
{
}

} // verus!
