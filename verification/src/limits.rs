//! The counters that bound what one sandboxed run may spend.

use vstd::prelude::*;

verus! {

/// Lines of output that a fresh run may print.
pub const DEFAULT_LINES: u64 = 10;

/// Characters of output that a fresh run may print.
pub const DEFAULT_CHARACTERS: u64 = 2000;

/// Outbound calls that a fresh run may start.
pub const DEFAULT_HTTP_CALLS: u64 = 2;

/// One of the budgets of a run.
#[derive(Clone, Copy, Debug, PartialEq, Eq, Structural)]
pub enum QuotaKind {
    Lines,
    Characters,
    HttpCalls,
}

/// What is left of each budget of a run.
#[derive(Clone, Copy, Debug, PartialEq, Eq, Structural)]
pub struct SandboxLimits {
    pub lines_left: u64,
    pub characters_left: u64,
    pub http_calls_left: u64,
}

impl SandboxLimits {
    /// The budgets of a fresh run.
    pub open spec fn fresh() -> SandboxLimits {
        SandboxLimits {
            lines_left: DEFAULT_LINES,
            characters_left: DEFAULT_CHARACTERS,
            http_calls_left: DEFAULT_HTTP_CALLS,
        }
    }

    /// The budget that stands in the way of printing one line of `characters`
    /// characters, if one does. The line budget is looked at first.
    pub open spec fn output_refusal(self, characters: nat) -> Option<QuotaKind> {
        if self.lines_left == 0 {
            Some(QuotaKind::Lines)
        } else if characters > self.characters_left {
            Some(QuotaKind::Characters)
        } else {
            None
        }
    }

    /// The budgets after one line of `characters` characters was paid for.
    pub open spec fn after_output(self, characters: nat) -> SandboxLimits
        recommends
            self.output_refusal(characters) is None,
    {
        SandboxLimits {
            lines_left: (self.lines_left - 1) as u64,
            characters_left: (self.characters_left - characters) as u64,
            http_calls_left: self.http_calls_left,
        }
    }

    /// The budgets after one outbound call was paid for.
    pub open spec fn after_http_call(self) -> SandboxLimits
        recommends
            self.http_calls_left > 0,
    {
        SandboxLimits {
            lines_left: self.lines_left,
            characters_left: self.characters_left,
            http_calls_left: (self.http_calls_left - 1) as u64,
        }
    }

    pub fn new() -> (limits: SandboxLimits)
        ensures
            limits == Self::fresh(),
    {
        SandboxLimits {
            lines_left: DEFAULT_LINES,
            characters_left: DEFAULT_CHARACTERS,
            http_calls_left: DEFAULT_HTTP_CALLS,
        }
    }

    pub fn lines_left(&self) -> (left: u64)
        ensures
            left == self.lines_left,
    {
        self.lines_left
    }

    pub fn set_lines_left(&mut self, value: u64)
        ensures
            *final(self) == (SandboxLimits { lines_left: value, ..*old(self) }),
    {
        self.lines_left = value;
    }

    pub fn characters_left(&self) -> (left: u64)
        ensures
            left == self.characters_left,
    {
        self.characters_left
    }

    pub fn set_characters_left(&mut self, value: u64)
        ensures
            *final(self) == (SandboxLimits { characters_left: value, ..*old(self) }),
    {
        self.characters_left = value;
    }

    pub fn http_calls_left(&self) -> (left: u64)
        ensures
            left == self.http_calls_left,
    {
        self.http_calls_left
    }

    /// Pays for one line of output of `characters` characters. Where a budget
    /// does not allow it, nothing is paid and the budget is named.
    pub fn charge_output(&mut self, characters: usize) -> (paid: Result<(), QuotaKind>)
        ensures
            match old(self).output_refusal(characters as nat) {
                Some(kind) => paid == Err::<(), QuotaKind>(kind) && *final(self) == *old(self),
                None => paid is Ok && *final(self) == old(self).after_output(characters as nat),
            },
    {
        if self.lines_left == 0 {
            Err(QuotaKind::Lines)
        } else if characters as u64 > self.characters_left {
            Err(QuotaKind::Characters)
        } else {
            self.lines_left = self.lines_left - 1;
            self.characters_left = self.characters_left - characters as u64;
            Ok(())
        }
    }

    /// Pays for one outbound call. With none left, nothing is paid and the
    /// call budget is named.
    pub fn charge_http_call(&mut self) -> (paid: Result<(), QuotaKind>)
        ensures
            old(self).http_calls_left == 0 ==> paid == Err::<(), QuotaKind>(QuotaKind::HttpCalls)
                && *final(self) == *old(self),
            old(self).http_calls_left > 0 ==> paid is Ok && *final(self) == old(self).after_http_call(),
    {
        if self.http_calls_left == 0 {
            Err(QuotaKind::HttpCalls)
        } else {
            self.http_calls_left = self.http_calls_left - 1;
            Ok(())
        }
    }
}

} // verus!
