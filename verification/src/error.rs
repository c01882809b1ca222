//! Why a capability call was refused.

use vstd::prelude::*;
use vstd::string::*;

use crate::limits::QuotaKind;
use crate::lua::{lua_runtime_error, runtime_error};

verus! {

/// The error that a capability raises inside the script that called it.
#[derive(Clone, Debug, PartialEq, Eq)]
pub enum SandboxError {
    /// The call would have spent more than the named budget holds.
    QuotaExceeded(QuotaKind),
    /// `terminate` was given a text that names no reason.
    UnknownTerminationReason(String),
    /// A delay was asked for that is negative or not finite.
    InvalidDuration,
}

/// A `SandboxError` with its text as a character sequence.
pub enum SandboxErrorView {
    QuotaExceeded(QuotaKind),
    UnknownTerminationReason(Seq<char>),
    InvalidDuration,
}

impl View for SandboxError {
    type V = SandboxErrorView;

    open spec fn view(&self) -> SandboxErrorView {
        match self {
            SandboxError::QuotaExceeded(kind) => SandboxErrorView::QuotaExceeded(*kind),
            SandboxError::UnknownTerminationReason(text) => SandboxErrorView::UnknownTerminationReason(
                text@,
            ),
            SandboxError::InvalidDuration => SandboxErrorView::InvalidDuration,
        }
    }
}

impl SandboxErrorView {
    /// The text that a script sees for this error.
    pub open spec fn message(self) -> Seq<char> {
        match self {
            SandboxErrorView::QuotaExceeded(QuotaKind::Lines) => "output line quota exceeded"@,
            SandboxErrorView::QuotaExceeded(QuotaKind::Characters) => "output character quota exceeded"@,
            SandboxErrorView::QuotaExceeded(QuotaKind::HttpCalls) => "http call quota exceeded"@,
            SandboxErrorView::UnknownTerminationReason(text) => "unknown termination reason: \""@
                + text + "\""@,
            SandboxErrorView::InvalidDuration => "Invalid duration"@,
        }
    }
}

impl SandboxError {
    /// True for the errors that an exhausted budget raises.
    pub fn is_quota(&self) -> (quota: bool)
        ensures
            quota == (self@ is QuotaExceeded),
    {
        match self {
            SandboxError::QuotaExceeded(_) => true,
            _ => false,
        }
    }

    /// The error as the interpreter raises it in the script that made the
    /// call: a runtime error with the message of this error.
    pub fn raise(&self) -> (raised: mlua::Error)
        ensures
            raised == lua_runtime_error(self@.message()),
    {
        runtime_error(self.message())
    }

    /// The text that a script sees for this error.
    pub fn message(&self) -> (text: String)
        ensures
            text@ == self@.message(),
    {
        match self {
            SandboxError::QuotaExceeded(QuotaKind::Lines) => String::from_str(
                "output line quota exceeded",
            ),
            SandboxError::QuotaExceeded(QuotaKind::Characters) => String::from_str(
                "output character quota exceeded",
            ),
            SandboxError::QuotaExceeded(QuotaKind::HttpCalls) => String::from_str(
                "http call quota exceeded",
            ),
            SandboxError::UnknownTerminationReason(given) => {
                let mut text = String::from_str("unknown termination reason: \"");
                text.append(given.as_str());
                text.append("\"");
                text
            },
            SandboxError::InvalidDuration => String::from_str("Invalid duration"),
        }
    }
}

/// The step of the host's work at which the interpreter failed.
#[derive(Clone, Copy, Debug, PartialEq, Eq, Structural)]
pub enum HostStage {
    /// Setting the runtime up: registering a library, running the bootstrap
    /// script, capping the heap.
    Bootstrap,
    /// Calling an entry point of the scripts: `think`, `run`, `on_command`.
    EntryPoint,
    /// Making a future, or capturing the sandbox context it starts under.
    Future,
    /// Ending a future, or giving up what kept it alive.
    Resolution,
}

/// A failure of the runtime, for the host: the step that failed, a message
/// for a human reader, and the interpreter's own error where the
/// interpreter raised one.
#[derive(Clone, Debug)]
pub struct HostError {
    pub stage: HostStage,
    pub message: String,
    pub cause: Option<mlua::Error>,
}

impl HostError {
    /// True if this is a failure of `stage` that carries an error which the
    /// interpreter raised.
    pub open spec fn is_raised(self, stage: HostStage) -> bool {
        self.stage == stage && self.cause is Some
    }

    /// True if this is a failure of `stage` that the host found itself,
    /// with `message` and with no error of the interpreter behind it.
    pub open spec fn is_own(self, stage: HostStage, message: Seq<char>) -> bool {
        self.stage == stage && self.cause is None && self.message@ == message
    }

    /// A failure that the host found itself, with no error of the
    /// interpreter behind it.
    pub fn new(stage: HostStage, message: String) -> (error: HostError)
        ensures
            error.stage == stage,
            error.message == message,
            error.cause is None,
    {
        HostError { stage, message, cause: None }
    }

    pub fn stage(&self) -> (stage: HostStage)
        ensures
            stage == self.stage,
    {
        self.stage
    }

    /// The message, for a human reader.
    pub fn message(&self) -> (text: String)
        ensures
            text@ == self.message@,
    {
        self.message.clone()
    }

    /// The failure as the interpreter raises it in a script whose call ran
    /// into it: a runtime error with the message of the failure.
    pub fn raise(&self) -> (raised: mlua::Error)
        ensures
            raised == lua_runtime_error(self.message@),
    {
        runtime_error(self.message())
    }

    /// The interpreter's error, as it was raised, where there is one.
    pub fn cause(&self) -> (cause: Option<&mlua::Error>)
        ensures
            match cause {
                Some(error) => self.cause == Some(*error),
                None => self.cause is None,
            },
    {
        match &self.cause {
            Some(error) => Some(error),
            None => None,
        }
    }
}

} // verus!
