//! The execution context of one sandboxed run: its budgets, and the
//! capabilities that spend them.

use vstd::prelude::*;
use vstd::string::*;

use crate::channel::Outbox;
use crate::error::{SandboxError, SandboxErrorView};
use crate::future::{handed_over, FetchRequest, PendingCall};
use crate::limiter::HttpRateLimiter;
use crate::lua::{lua_runtime_error, table_value};
use crate::limits::{QuotaKind, SandboxLimits};
use crate::message::{SandboxMsg, SandboxMsgView, SandboxTerminationReason};

verus! {

/// How an admitted outbound call starts.
#[derive(Clone, Copy, Debug, PartialEq, Eq, Structural)]
pub enum FetchStart {
    /// A token of the shared limiter was at hand: the call may go out now.
    Immediate,
    /// No token was at hand: the native side waits for one, off the
    /// interpreter's thread, before the call goes out.
    AfterAdmission,
}

/// The context of one sandboxed run. The scripts hold it as an object and
/// call the capabilities on it.
pub struct SandboxStateInner {
    /// Where the outbound calls that the run starts are handed to the native
    /// side.
    pub async_sender: Outbox<FetchRequest>,
    /// Where the messages of the run go to the host.
    pub sender: Outbox<SandboxMsg>,
    /// Interpreter steps that the run has taken, as the script last reported.
    pub instructions_run: u64,
    pub limits: SandboxLimits,
    pub http_rate_limiter: HttpRateLimiter,
}

impl SandboxStateInner {
    /// What `print` answers for `text` under `limits`.
    pub open spec fn print_outcome(limits: SandboxLimits, text: Seq<char>) -> Result<
        SandboxMsgView,
        SandboxErrorView,
    > {
        match limits.output_refusal(text.len()) {
            Some(kind) => Err(SandboxErrorView::QuotaExceeded(kind)),
            None => Ok(SandboxMsgView::Out(text)),
        }
    }

    /// The budgets after `print` was called for `text` under `limits`.
    pub open spec fn limits_after_print(limits: SandboxLimits, text: Seq<char>) -> SandboxLimits {
        match limits.output_refusal(text.len()) {
            Some(_) => limits,
            None => limits.after_output(text.len()),
        }
    }

    /// What `terminate` answers for `text`.
    pub open spec fn terminate_outcome(text: Seq<char>) -> Result<
        SandboxMsgView,
        SandboxErrorView,
    > {
        match SandboxTerminationReason::named_by(text) {
            Some(reason) => Ok(SandboxMsgView::Terminated(reason)),
            None => Err(SandboxErrorView::UnknownTerminationReason(text)),
        }
    }

    /// What starting an outbound call answers under `limits`, where
    /// `token_at_hand` says whether the shared limiter had a token.
    pub open spec fn fetch_outcome(limits: SandboxLimits, token_at_hand: bool) -> Result<
        FetchStart,
        SandboxErrorView,
    > {
        if limits.http_calls_left == 0 {
            Err(SandboxErrorView::QuotaExceeded(QuotaKind::HttpCalls))
        } else if token_at_hand {
            Ok(FetchStart::Immediate)
        } else {
            Ok(FetchStart::AfterAdmission)
        }
    }

    /// The budgets after an outbound call was asked for under `limits`.
    pub open spec fn limits_after_fetch(limits: SandboxLimits) -> SandboxLimits {
        if limits.http_calls_left == 0 {
            limits
        } else {
            limits.after_http_call()
        }
    }

    /// The budgets after `calls` outbound calls were asked for, one after
    /// another, starting under `limits`.
    pub open spec fn limits_after_fetches(limits: SandboxLimits, calls: nat) -> SandboxLimits
        decreases calls,
    {
        if calls == 0 {
            limits
        } else {
            Self::limits_after_fetches(Self::limits_after_fetch(limits), (calls - 1) as nat)
        }
    }

    /// The budgets after each text of `texts` was printed, one after another,
    /// starting under `limits`.
    pub open spec fn limits_after_prints(limits: SandboxLimits, texts: Seq<Seq<char>>) -> SandboxLimits
        decreases texts.len(),
    {
        if texts.len() == 0 {
            limits
        } else {
            Self::limits_after_prints(
                Self::limits_after_print(limits, texts.first()),
                texts.drop_first(),
            )
        }
    }

    /// Once no outbound call is left, none comes back: however many calls
    /// were asked for since, the next one is refused with the quota error,
    /// whether or not the shared limiter has a token at hand.
    pub proof fn lemma_spent_calls_stay_refused(
        limits: SandboxLimits,
        earlier: nat,
        token_at_hand: bool,
    )
        requires
            limits.http_calls_left == 0,
        ensures
            Self::limits_after_fetches(limits, earlier) == limits,
            Self::fetch_outcome(Self::limits_after_fetches(limits, earlier), token_at_hand) == Err::<
                FetchStart,
                SandboxErrorView,
            >(SandboxErrorView::QuotaExceeded(QuotaKind::HttpCalls)),
        decreases earlier,
    {
        if earlier > 0 {
            Self::lemma_spent_calls_stay_refused(limits, (earlier - 1) as nat, token_at_hand);
        }
    }

    /// A run is admitted exactly as many outbound calls as it has left: of a
    /// series of calls, the one after `earlier` others is admitted if and
    /// only if `earlier` is below the number of calls left at the start.
    pub proof fn lemma_calls_admitted(limits: SandboxLimits, earlier: nat, token_at_hand: bool)
        ensures
            Self::fetch_outcome(Self::limits_after_fetches(limits, earlier), token_at_hand) is Ok
                <==> earlier < limits.http_calls_left,
        decreases earlier,
    {
        if earlier > 0 {
            Self::lemma_calls_admitted(
                Self::limits_after_fetch(limits),
                (earlier - 1) as nat,
                token_at_hand,
            );
        }
    }

    /// The characters of all texts of `texts` together.
    pub open spec fn total_characters(texts: Seq<Seq<char>>) -> nat
        decreases texts.len(),
    {
        if texts.len() == 0 {
            0
        } else {
            texts.first().len() + Self::total_characters(texts.drop_first())
        }
    }

    /// A run is admitted exactly as many lines as it has left, as long as
    /// its characters last: of a series of texts that the character budget
    /// covers together, the one after `earlier` others is printed if and
    /// only if `earlier` holds fewer texts than lines were left at the start.
    pub proof fn lemma_lines_admitted(
        limits: SandboxLimits,
        earlier: Seq<Seq<char>>,
        text: Seq<char>,
    )
        requires
            Self::total_characters(earlier) + text.len() <= limits.characters_left,
        ensures
            Self::print_outcome(Self::limits_after_prints(limits, earlier), text) is Ok
                <==> earlier.len() < limits.lines_left,
        decreases earlier.len(),
    {
        if earlier.len() > 0 {
            if limits.lines_left == 0 {
                Self::lemma_spent_lines_stay_refused(limits, earlier, text);
            } else {
                Self::lemma_lines_admitted(
                    Self::limits_after_print(limits, earlier.first()),
                    earlier.drop_first(),
                    text,
                );
            }
        }
    }

    /// Once no line is left, none comes back: whatever was printed since,
    /// the next `print` is refused with the line quota error and the host
    /// gets no `Out` message for it.
    pub proof fn lemma_spent_lines_stay_refused(
        limits: SandboxLimits,
        earlier: Seq<Seq<char>>,
        text: Seq<char>,
    )
        requires
            limits.lines_left == 0,
        ensures
            Self::limits_after_prints(limits, earlier) == limits,
            Self::print_outcome(Self::limits_after_prints(limits, earlier), text) == Err::<
                SandboxMsgView,
                SandboxErrorView,
            >(SandboxErrorView::QuotaExceeded(QuotaKind::Lines)),
        decreases earlier.len(),
    {
        if earlier.len() > 0 {
            Self::lemma_spent_lines_stay_refused(limits, earlier.drop_first(), text);
        }
    }

    /// True if `self` is the run that `before` was: it has the same queues,
    /// the same limiter and the same step count. Its budgets and what it
    /// has sent may differ.
    pub open spec fn same_run(self, before: SandboxStateInner) -> bool {
        &&& self.async_sender.end() == before.async_sender.end()
        &&& self.sender.end() == before.sender.end()
        &&& self.instructions_run == before.instructions_run
        &&& self.http_rate_limiter == before.http_rate_limiter
    }

    /// The messages that the run has sent to the host, oldest first.
    pub open spec fn said(self) -> Seq<SandboxMsg> {
        self.sender.offered()
    }

    /// The outbound calls that the run has handed to the native side,
    /// oldest first.
    pub open spec fn asked(self) -> Seq<FetchRequest> {
        self.async_sender.offered()
    }

    /// The messages of a run after `print` was called for `value` under
    /// `limits`: one more, `Out` of the value, where the budgets allow the
    /// line, and no other where not.
    pub open spec fn said_after_print(
        said: Seq<SandboxMsg>,
        limits: SandboxLimits,
        value: String,
    ) -> Seq<SandboxMsg> {
        match limits.output_refusal(value@.len()) {
            None => said.push(SandboxMsg::Out(value)),
            Some(_) => said,
        }
    }

    /// The messages of a run after `terminate` was called for `value`: one
    /// more, `Terminated` with the reason, where the value names one, and no
    /// other where not.
    pub open spec fn said_after_terminate(said: Seq<SandboxMsg>, value: Seq<char>) -> Seq<
        SandboxMsg,
    > {
        match SandboxTerminationReason::named_by(value) {
            Some(reason) => said.push(SandboxMsg::Terminated(reason)),
            None => said,
        }
    }

    /// Once no line is left, `print` sends nothing more: whatever the text,
    /// the messages of the run stay as they are.
    pub proof fn lemma_spent_lines_send_nothing(
        said: Seq<SandboxMsg>,
        limits: SandboxLimits,
        value: String,
    )
        requires
            limits.lines_left == 0,
        ensures
            Self::said_after_print(said, limits, value) == said,
    {
    }

    /// True if `now` holds one request more than `before`, at its end: the
    /// request of a call to `url` with `options` that starts as `start`
    /// says.
    pub open spec fn asked_once(
        now: Seq<FetchRequest>,
        before: Seq<FetchRequest>,
        url: String,
        options: Vec<(String, String)>,
        start: FetchStart,
    ) -> bool {
        &&& now.len() == before.len() + 1
        &&& now.drop_last() == before
        &&& now.last().address() == url@
        &&& now.last().fields() == options
        &&& now.last().started() == start
    }

    /// The context of a fresh run: no step taken, full budgets.
    pub fn new(
        async_sender: Outbox<FetchRequest>,
        sender: Outbox<SandboxMsg>,
        http_rate_limiter: HttpRateLimiter,
    ) -> (state: SandboxStateInner)
        ensures
            state.instructions_run == 0,
            state.limits == SandboxLimits::fresh(),
            state.async_sender == async_sender,
            state.sender == sender,
            state.http_rate_limiter == http_rate_limiter,
    {
        SandboxStateInner {
            async_sender,
            sender,
            instructions_run: 0,
            limits: SandboxLimits::new(),
            http_rate_limiter,
        }
    }

    /// Pays for one line of output and makes its message, without sending
    /// it. The line costs one line and as many characters as `value` has.
    /// Where the budgets allow it, the answer is the `Out` message for the
    /// host; where not, nothing is spent and the error names the budget.
    pub fn print_message(&mut self, value: String) -> (message: Result<SandboxMsg, SandboxError>)
        ensures
            match message {
                Ok(msg) => Ok::<SandboxMsgView, SandboxErrorView>(msg@),
                Err(error) => Err::<SandboxMsgView, SandboxErrorView>(error@),
            } == Self::print_outcome(old(self).limits, value@),
            message matches Ok(msg) ==> msg == SandboxMsg::Out(value),
            final(self).limits == Self::limits_after_print(old(self).limits, value@),
            final(self).same_run(*old(self)),
            final(self).said() == old(self).said(),
            final(self).asked() == old(self).asked(),
    {
        let characters: usize = value.as_str().unicode_len();
        match self.limits.charge_output(characters) {
            Ok(()) => Ok(SandboxMsg::Out(value)),
            Err(kind) => Err(SandboxError::QuotaExceeded(kind)),
        }
    }

    /// The message that reports an error. Reporting an error costs nothing.
    pub fn error_message(value: String) -> (message: SandboxMsg)
        ensures
            message == SandboxMsg::Error(value),
    {
        SandboxMsg::Error(value)
    }

    /// The message that asks the host to stop the run, where `value` names
    /// a reason.
    pub fn terminate_message(value: &str) -> (message: Result<SandboxMsg, SandboxError>)
        ensures
            match message {
                Ok(msg) => Ok::<SandboxMsgView, SandboxErrorView>(msg@),
                Err(error) => Err::<SandboxMsgView, SandboxErrorView>(error@),
            } == Self::terminate_outcome(value@),
            message matches Ok(msg) ==> SandboxTerminationReason::named_by(value@) matches Some(
                reason,
            ) && msg == SandboxMsg::Terminated(reason),
    {
        match SandboxTerminationReason::parse(value) {
            Some(reason) => Ok(SandboxMsg::Terminated(reason)),
            None => Err(SandboxError::UnknownTerminationReason(String::from_str(value))),
        }
    }

    /// Pays for one outbound call and says how it starts, given whether the
    /// shared limiter had a token at hand. With no call left the answer is
    /// the quota error, whatever the limiter said.
    pub fn admit_fetch(&mut self, token_at_hand: bool) -> (start: Result<FetchStart, SandboxError>)
        ensures
            match start {
                Ok(how) => Ok::<FetchStart, SandboxErrorView>(how),
                Err(error) => Err::<FetchStart, SandboxErrorView>(error@),
            } == Self::fetch_outcome(old(self).limits, token_at_hand),
            final(self).limits == Self::limits_after_fetch(old(self).limits),
            final(self).same_run(*old(self)),
            final(self).said() == old(self).said(),
            final(self).asked() == old(self).asked(),
    {
        match self.limits.charge_http_call() {
            Err(kind) => Err(SandboxError::QuotaExceeded(kind)),
            Ok(()) => if token_at_hand {
                Ok(FetchStart::Immediate)
            } else {
                Ok(FetchStart::AfterAdmission)
            },
        }
    }

    /// Pays for one outbound call, then asks the shared limiter for a token
    /// without waiting. With no call left the limiter is not asked and the
    /// answer is the quota error.
    pub fn start_fetch(&mut self) -> (start: Result<FetchStart, SandboxError>)
        ensures
            exists|token_at_hand: bool|
                (match start {
                    Ok(how) => Ok::<FetchStart, SandboxErrorView>(how),
                    Err(error) => Err::<FetchStart, SandboxErrorView>(error@),
                }) == #[trigger] Self::fetch_outcome(old(self).limits, token_at_hand),
            final(self).limits == Self::limits_after_fetch(old(self).limits),
            final(self).same_run(*old(self)),
            final(self).said() == old(self).said(),
            final(self).asked() == old(self).asked(),
    {
        if self.limits.http_calls_left() == 0 {
            self.admit_fetch(false)
        } else {
            let token_at_hand: bool = self.http_rate_limiter.try_acquire();
            self.admit_fetch(token_at_hand)
        }
    }

    /// `print`, as a script calls it: one line of output for the host. It
    /// succeeds where the budgets allow the line, and spends them; the
    /// `Out` message is sent then, and a host that no longer listens is no
    /// error. Where a budget does not allow the line, nothing is spent or
    /// sent and the error names the budget.
    pub fn print(&mut self, value: String) -> (done: Result<(), SandboxError>)
        ensures
            match done {
                Ok(()) => old(self).limits.output_refusal(value@.len()) is None,
                Err(error) => old(self).limits.output_refusal(value@.len()) matches Some(kind)
                    && error@ == SandboxErrorView::QuotaExceeded(kind),
            },
            final(self).limits == Self::limits_after_print(old(self).limits, value@),
            final(self).said() == Self::said_after_print(
                old(self).said(),
                old(self).limits,
                value,
            ),
            final(self).asked() == old(self).asked(),
            final(self).same_run(*old(self)),
    {
        match self.print_message(value) {
            Ok(message) => {
                let _ = self.sender.send(message);
                Ok(())
            },
            Err(error) => Err(error),
        }
    }

    /// `error`, as a script calls it: the text of an error for the host,
    /// sent as an `Error` message. It costs nothing, and a host that no
    /// longer listens is no error.
    pub fn error(&mut self, value: String)
        ensures
            final(self).said() == old(self).said().push(SandboxMsg::Error(value)),
            final(self).asked() == old(self).asked(),
            final(self).limits == old(self).limits,
            final(self).same_run(*old(self)),
    {
        let _ = self.sender.send(Self::error_message(value));
    }

    pub fn set_instructions_run(&mut self, value: u64)
        ensures
            final(self).instructions_run == value,
            final(self).limits == old(self).limits,
            final(self).async_sender == old(self).async_sender,
            final(self).sender == old(self).sender,
            final(self).http_rate_limiter == old(self).http_rate_limiter,
    {
        self.instructions_run = value;
    }

    pub fn get_instructions_run(&self) -> (steps: u64)
        ensures
            steps == self.instructions_run,
    {
        self.instructions_run
    }

    /// `terminate`, as a script calls it: a request to stop the run. It
    /// succeeds if and only if `value` names a reason, and the `Terminated`
    /// message is sent then. The run is not stopped here: the host stops
    /// driving it when the message arrives.
    pub fn terminate(&mut self, value: &str) -> (done: Result<(), SandboxError>)
        ensures
            match done {
                Ok(()) => SandboxTerminationReason::named_by(value@) is Some,
                Err(error) => SandboxTerminationReason::named_by(value@) is None && error@
                    == SandboxErrorView::UnknownTerminationReason(value@),
            },
            final(self).said() == Self::said_after_terminate(old(self).said(), value@),
            final(self).asked() == old(self).asked(),
            final(self).limits == old(self).limits,
            final(self).same_run(*old(self)),
    {
        match Self::terminate_message(value) {
            Ok(message) => {
                let _ = self.sender.send(message);
                Ok(())
            },
            Err(error) => Err(error),
        }
    }

    /// Hands an outbound call that was paid for to the native side: makes
    /// the future of its result and sends the request. The future is the
    /// script's answer, as `handed_over` says. Where no future could be
    /// made, nothing is sent.
    pub fn request_fetch(
        &mut self,
        state: &mlua::Lua,
        url: String,
        options: Vec<(String, String)>,
        start: FetchStart,
    ) -> (answer: Result<mlua::Value, mlua::Error>)
        ensures
            answer is Ok ==> Self::asked_once(
                final(self).asked(),
                old(self).asked(),
                url,
                options,
                start,
            ),
            final(self).asked() == old(self).asked() || Self::asked_once(
                final(self).asked(),
                old(self).asked(),
                url,
                options,
                start,
            ),
            final(self).said() == old(self).said(),
            final(self).limits == old(self).limits,
            final(self).same_run(*old(self)),
    {
        let (call, future) = match PendingCall::begin(state) {
            Ok(begun) => begun,
            Err(failure) => return Err(failure.raise()),
        };
        let taken = self.async_sender.send(FetchRequest::new(call, url, options, start));
        assert(self.asked().drop_last() =~= old(self).asked());
        handed_over(taken, table_value(&future), "no outbound call can be made")
    }

    /// `http_fetch`, as a script calls it: starts an outbound call to `url`
    /// and answers with the future of its result. The call is paid for
    /// first, and with none left it is refused before anything else is
    /// done. Then the shared limiter is asked for a token without waiting,
    /// a future is made, and one request goes to the native side, which
    /// waits for a token where none was at hand.
    pub fn http_fetch(
        &mut self,
        state: &mlua::Lua,
        url: String,
        options: Vec<(String, String)>,
    ) -> (answer: Result<mlua::Value, mlua::Error>)
        ensures
            old(self).limits.http_calls_left == 0 ==> answer == Err::<mlua::Value, mlua::Error>(
                lua_runtime_error(
                    SandboxErrorView::QuotaExceeded(QuotaKind::HttpCalls).message(),
                ),
            ) && final(self).asked() == old(self).asked(),
            answer is Ok ==> exists|start: FetchStart|
                Self::fetch_outcome(old(self).limits, start == FetchStart::Immediate) == Ok::<
                    FetchStart,
                    SandboxErrorView,
                >(start) && #[trigger] Self::asked_once(
                    final(self).asked(),
                    old(self).asked(),
                    url,
                    options,
                    start,
                ),
            final(self).asked().len() <= old(self).asked().len() + 1,
            final(self).said() == old(self).said(),
            final(self).limits == Self::limits_after_fetch(old(self).limits),
            final(self).same_run(*old(self)),
    {
        match self.start_fetch() {
            Ok(start) => self.request_fetch(state, url, options, start),
            Err(refusal) => Err(refusal.raise()),
        }
    }
}

} // verus!
