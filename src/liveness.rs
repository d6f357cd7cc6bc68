//! Whether a process handle may still talk to its child.
//!
//! Every send and receive first checks on the child. Once a check has found
//! the child not running (it has exited, or it could not be checked at all),
//! the handle holds it as stopped from then on: it refuses to talk to it, with
//! an error that says so, rather than attempt an operation on a dead channel.
use vstd::prelude::*;

use crate::error::IpcError;
use crate::handshake::ChildStatus;

verus! {

/// Whether a handle that has or has not already found its child stopped may
/// talk to it, given what a check on the child just found.
pub open spec fn admits(stopped: bool, status: ChildStatus) -> bool {
    !stopped && status is Running
}

/// The liveness record of one process handle.
pub struct Liveness {
    stopped: bool,
}

impl Liveness {
    /// Whether a check has found the child not running.
    pub closed spec fn is_stopped(&self) -> bool {
        self.stopped
    }

    /// The record of a handle whose handshake has just completed.
    pub fn connected() -> (r: Liveness)
        ensures
            !r.is_stopped(),
    {
        Liveness { stopped: false }
    }

    /// Whether a check has found the child not running.
    pub fn stopped(&self) -> (r: bool)
        ensures
            r == self.is_stopped(),
    {
        self.stopped
    }

    /// Takes what a check on the child found and says whether the child is
    /// running. An exit status of any value means that it is not, and so does
    /// a check that failed; either is final: from then on the answer is false.
    pub fn observe(&mut self, status: &ChildStatus) -> (r: bool)
        ensures
            final(self).is_stopped() == (old(self).is_stopped() || !(*status is Running)),
            r == admits(old(self).is_stopped(), *status),
            r == !final(self).is_stopped(),
    {
        match status {
            ChildStatus::Running => !self.stopped,
            _ => {
                self.stopped = true;
                false
            },
        }
    }

    /// Records that a wait on the child returned its exit status.
    pub fn record_exit(&mut self)
        ensures
            final(self).is_stopped(),
    {
        self.stopped = true;
    }

    /// The check that precedes every send and receive: `Ok` where the child
    /// may be talked to, else the error that it is not running.
    pub fn check(&mut self, status: &ChildStatus) -> (r: Result<(), IpcError>)
        ensures
            final(self).is_stopped() == (old(self).is_stopped() || !(*status is Running)),
            r is Ok <==> admits(old(self).is_stopped(), *status),
            r is Ok <==> !final(self).is_stopped(),
            r matches Err(e) ==> e is ProcessNotRunning,
    {
        if self.observe(status) {
            Ok(())
        } else {
            Err(IpcError::ProcessNotRunning)
        }
    }
}

/// A handle is live right after its handshake while its child runs; once a
/// check has found the child not running, or a wait has returned, every later
/// check, send and receive is refused as not running, whatever a later check
/// on the child reports.
pub proof fn liveness_transition(stopped: bool, status: ChildStatus, later: ChildStatus)
    ensures
        admits(false, ChildStatus::Running),
        !admits(true, status),
        !admits(stopped, status) ==> !admits(stopped || !(status is Running), later),
{
}

} // verus!
