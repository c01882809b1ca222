//! What a sandboxed run tells the host.

use vstd::prelude::*;
use vstd::string::*;

verus! {

/// Why a sandboxed run asked to be stopped.
#[derive(Clone, Copy, Debug, PartialEq, Eq, Structural)]
pub enum SandboxTerminationReason {
    /// The run used up its execution quota.
    ExecutionQuota,
}

impl SandboxTerminationReason {
    /// The reason that a script names by `text`, if it names one.
    pub open spec fn named_by(text: Seq<char>) -> Option<SandboxTerminationReason> {
        if text == "exec"@ {
            Some(SandboxTerminationReason::ExecutionQuota)
        } else {
            None
        }
    }

    /// Reads the name by which scripts request a termination: `"exec"` stands
    /// for the execution quota, every other text names nothing.
    pub fn parse(text: &str) -> (reason: Option<SandboxTerminationReason>)
        ensures
            reason == Self::named_by(text@),
    {
        if String::from_str(text) == String::from_str("exec") {
            Some(SandboxTerminationReason::ExecutionQuota)
        } else {
            None
        }
    }

    /// The name that `parse` reads back as this reason.
    pub fn name(&self) -> (text: &'static str)
        ensures
            Self::named_by(text@) == Some(*self),
    {
        "exec"
    }
}

/// One message from a sandboxed run to the host.
#[derive(Clone, Debug, PartialEq, Eq)]
pub enum SandboxMsg {
    /// Text that the script printed.
    Out(String),
    /// Text of an error that the script reported.
    Error(String),
    /// The run asked to be stopped.
    Terminated(SandboxTerminationReason),
}

/// A `SandboxMsg` with its texts as character sequences.
pub enum SandboxMsgView {
    Out(Seq<char>),
    Error(Seq<char>),
    Terminated(SandboxTerminationReason),
}

impl View for SandboxMsg {
    type V = SandboxMsgView;

    open spec fn view(&self) -> SandboxMsgView {
        match self {
            SandboxMsg::Out(text) => SandboxMsgView::Out(text@),
            SandboxMsg::Error(text) => SandboxMsgView::Error(text@),
            SandboxMsg::Terminated(reason) => SandboxMsgView::Terminated(*reason),
        }
    }
}

impl SandboxMsg {
    /// True for the message that ends a run.
    pub fn is_terminal(&self) -> (terminal: bool)
        ensures
            terminal == (self@ is Terminated),
    {
        match self {
            SandboxMsg::Terminated(_) => true,
            _ => false,
        }
    }
}

} // verus!
