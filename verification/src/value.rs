//! The plain values that finished native work hands to a script, and the
//! two ways in which such work ends.

use vstd::prelude::*;

verus! {

/// A value that crosses from the native side into the interpreter.
#[derive(Clone, Debug, PartialEq, Eq)]
pub enum ScriptValue {
    Nil,
    Boolean(bool),
    Integer(i64),
    Text(String),
}

/// A `ScriptValue` with its text as a character sequence.
pub enum ScriptValueView {
    Nil,
    Boolean(bool),
    Integer(i64),
    Text(Seq<char>),
}

impl View for ScriptValue {
    type V = ScriptValueView;

    open spec fn view(&self) -> ScriptValueView {
        match self {
            ScriptValue::Nil => ScriptValueView::Nil,
            ScriptValue::Boolean(flag) => ScriptValueView::Boolean(*flag),
            ScriptValue::Integer(number) => ScriptValueView::Integer(*number),
            ScriptValue::Text(text) => ScriptValueView::Text(text@),
        }
    }
}

/// The views of a list of values, in its order.
pub open spec fn value_views(values: Seq<ScriptValue>) -> Seq<ScriptValueView> {
    Seq::new(values.len(), |i: int| values[i]@)
}

/// How a piece of native work ended. The native side hands this over as
/// plain data: it never touches the interpreter.
#[derive(Clone, Debug, PartialEq, Eq)]
pub enum Completion {
    /// The work succeeded, with these results.
    Resolved(Vec<ScriptValue>),
    /// The work failed, with this message.
    Failed(String),
}

/// A `Completion` over views.
pub enum CompletionView {
    Resolved(Seq<ScriptValueView>),
    Failed(Seq<char>),
}

impl View for Completion {
    type V = CompletionView;

    open spec fn view(&self) -> CompletionView {
        match self {
            Completion::Resolved(values) => CompletionView::Resolved(value_views(values@)),
            Completion::Failed(message) => CompletionView::Failed(message@),
        }
    }
}

/// The entry point of a future that ends it.
#[derive(Clone, Copy, Debug, PartialEq, Eq, Structural)]
pub enum ResolutionHook {
    Resolve,
    Reject,
}

/// The way on which a future is ended.
#[derive(Clone, Copy, Debug, PartialEq, Eq, Structural)]
pub enum ResolutionRoute {
    /// The host calls the future's own entry point.
    Direct,
    /// The host calls the sandbox's `async_callback`, which accounts for the
    /// continuation under the run's quotas and ends the future itself.
    ThroughSandbox,
}

/// What the host does to end one future.
#[derive(Clone, Debug, PartialEq, Eq)]
pub struct Resolution {
    pub route: ResolutionRoute,
    pub hook: ResolutionHook,
    pub values: Vec<ScriptValue>,
}

/// A `Resolution` over views.
pub struct ResolutionView {
    pub route: ResolutionRoute,
    pub hook: ResolutionHook,
    pub values: Seq<ScriptValueView>,
}

impl View for Resolution {
    type V = ResolutionView;

    open spec fn view(&self) -> ResolutionView {
        ResolutionView { route: self.route, hook: self.hook, values: value_views(self.values@) }
    }
}

impl ResolutionHook {
    /// The field of a future under which the entry point stands.
    pub open spec fn field(self) -> Seq<char> {
        match self {
            ResolutionHook::Resolve => "resolve"@,
            ResolutionHook::Reject => "reject"@,
        }
    }

    /// The field of a future under which the entry point stands.
    pub fn name(&self) -> (name: &'static str)
        ensures
            name@ == self.field(),
    {
        match self {
            ResolutionHook::Resolve => "resolve",
            ResolutionHook::Reject => "reject",
        }
    }

    /// The flag that tells the sandbox whether the work succeeded.
    pub fn succeeded(&self) -> (flag: bool)
        ensures
            flag == (*self == ResolutionHook::Resolve),
    {
        match self {
            ResolutionHook::Resolve => true,
            ResolutionHook::Reject => false,
        }
    }
}

impl Resolution {
    /// How a future whose work ended as `completion` is ended: resolved with
    /// the results of work that succeeded, rejected with the message of work
    /// that failed; through the sandbox where the work was started under a
    /// sandbox context, directly where not.
    pub open spec fn planned(completion: CompletionView, has_context: bool) -> ResolutionView {
        ResolutionView {
            route: if has_context {
                ResolutionRoute::ThroughSandbox
            } else {
                ResolutionRoute::Direct
            },
            hook: match completion {
                CompletionView::Resolved(_) => ResolutionHook::Resolve,
                CompletionView::Failed(_) => ResolutionHook::Reject,
            },
            values: match completion {
                CompletionView::Resolved(values) => values,
                CompletionView::Failed(message) => seq![ScriptValueView::Text(message)],
            },
        }
    }

    /// Plans the end of a future from the way its work ended.
    pub fn plan(completion: Completion, has_context: bool) -> (resolution: Resolution)
        ensures
            resolution@ == Self::planned(completion@, has_context),
    {
        let route = if has_context {
            ResolutionRoute::ThroughSandbox
        } else {
            ResolutionRoute::Direct
        };
        match completion {
            Completion::Resolved(values) => Resolution {
                route,
                hook: ResolutionHook::Resolve,
                values,
            },
            Completion::Failed(message) => {
                let mut values: Vec<ScriptValue> = Vec::new();
                values.push(ScriptValue::Text(message));
                assert(value_views(values@) =~= seq![ScriptValueView::Text(message@)]);
                Resolution { route, hook: ResolutionHook::Reject, values }
            },
        }
    }
}

/// True if no value of the list is a text.
pub open spec fn holds_no_text(values: Seq<ScriptValue>) -> bool {
    forall|i: int| 0 <= i < values.len() ==> !(#[trigger] values[i] is Text)
}

} // verus!
