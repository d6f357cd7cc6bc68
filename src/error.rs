//! The errors of the channel and of the process handle.
use vstd::prelude::*;

use vstd::string::to_string_from_display_ensures;

use crate::text::join_text;

verus! {

/// `std::io::Error`, the operating system's failures, carried through unread.
#[verifier::external_type_specification]
#[verifier::external_body]
pub struct ExIoError(std::io::Error);

/// `serde_json::Error`, why JSON could not be encoded or decoded, carried through unread.
#[verifier::external_type_specification]
#[verifier::external_body]
pub struct ExJsonError(serde_json::Error);

/// What can go wrong while setting up or using the channel to a child.
#[derive(Debug)]
pub enum IpcError {
    /// The operating system refused an operation on the channel or the process.
    Io(std::io::Error),
    /// The liveness probe found that the child is no longer running.
    ProcessNotRunning,
    /// The child did not open its end of the channel within the retry budget.
    TimedOut,
    /// The child exited before the channel was connected, with this exit code if it had one.
    ExitedBeforeConnect(Option<i32>),
    /// Bytes that were to be read as text are not valid UTF-8.
    InvalidUtf8,
    /// Bytes that were to be read as JSON are not one JSON value.
    InvalidJson(serde_json::Error),
}

impl From<std::io::Error> for IpcError {
    fn from(err: std::io::Error) -> Self {
        IpcError::Io(err)
    }
}

impl vstd::std_specs::convert::FromSpecImpl<std::io::Error> for IpcError {
    open spec fn obeys_from_spec() -> bool {
        true
    }

    open spec fn from_spec(v: std::io::Error) -> Self {
        IpcError::Io(v)
    }
}

/// The start of the message of an operating-system failure.
pub const IO_PREFIX: &'static str = "IO error: ";

/// The start of the message of a JSON failure.
pub const JSON_PREFIX: &'static str = "JSON error: ";

impl IpcError {
    /// A message for a person: fixed for each kind of failure, and for a
    /// failure that wraps another error, a fixed start followed by that error's
    /// own text, as its `to_string` gives it.
    pub fn message(&self) -> (r: String)
        ensures
            self matches IpcError::Io(e) ==> exists|t: String|
                to_string_from_display_ensures::<std::io::Error>(&e, t) && r@ == IO_PREFIX@ + t@,
            self matches IpcError::InvalidJson(e) ==> exists|t: String|
                to_string_from_display_ensures::<serde_json::Error>(&e, t) && r@ == JSON_PREFIX@
                    + t@,
            self is ProcessNotRunning ==> r@ == "Child process is not running"@,
            self is TimedOut ==> r@ == "Timed out waiting for the child to open the channel"@,
            self is ExitedBeforeConnect ==> r@ == "Child process exited before connecting"@,
            self is InvalidUtf8 ==> r@ == "Message is not valid UTF-8"@,
    {
        match self {
            IpcError::Io(e) => {
                let detail = e.to_string();
                join_text(IO_PREFIX, detail.as_str())
            },
            IpcError::ProcessNotRunning => "Child process is not running".to_owned(),
            IpcError::TimedOut => "Timed out waiting for the child to open the channel".to_owned(),
            IpcError::ExitedBeforeConnect(_) => "Child process exited before connecting".to_owned(),
            IpcError::InvalidUtf8 => "Message is not valid UTF-8".to_owned(),
            IpcError::InvalidJson(e) => {
                let detail = e.to_string();
                join_text(JSON_PREFIX, detail.as_str())
            },
        }
    }

    /// Whether the failure is the liveness check refusing to talk to an exited child.
    pub fn is_not_running(&self) -> (r: bool)
        ensures
            r == (self is ProcessNotRunning),
    {
        matches!(self, IpcError::ProcessNotRunning)
    }
}

} // verus!
