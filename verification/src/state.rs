//! The runtime: one interpreter, the bridge that feeds it, and the tick that
//! drives both.

use crossbeam::channel::{Receiver, Sender};
use vstd::prelude::*;

use crate::channel::{another_receiver, queued, try_recv, Outbox};
use crate::error::{HostError, HostStage};
use crate::future::{
    global_table, host_error, lost_future_message, no_function_message, no_table_message,
    table_function, FetchRequest, FutureHandle, LuaAsyncCallback, SandboxState, TimerRequest,
};
use crate::lib_async::lib_async;
use crate::lib_sandbox::{context_object, context_reading, register_context_type};
use crate::limiter::{quota_per_second, HttpRateLimiter, HTTP_CALLS_PER_SECOND};
use crate::limits::SandboxLimits;
use crate::lua::{
    another_value, boolean_value, call_function, integer_value, lua_boolean, lua_integer, nil_in,
    nil_value, run_chunk, set_memory_limit, string_value, strings_value, table_value, text_in,
};
use crate::message::SandboxMsg;
use crate::sandbox::SandboxStateInner;
use crate::value::{holds_no_text, Resolution, ResolutionHook, ResolutionRoute, ScriptValue};

verus! {

/// The cap on the interpreter's heap, in bytes: 256 MiB.
pub const MEMORY_LIMIT: usize = 268_435_456;

/// A standard library of the interpreter.
#[derive(Clone, Copy, Debug, PartialEq, Eq, Structural)]
pub enum BaseLibrary {
    Coroutine,
    Table,
    Io,
    Os,
    String,
    Utf8,
    Math,
    Package,
    Debug,
}

impl BaseLibrary {
    /// True for the libraries that give a script the file system or the
    /// operating system.
    pub open spec fn reaches_outside(self) -> bool {
        self == BaseLibrary::Io || self == BaseLibrary::Os || self == BaseLibrary::Package
    }
}

/// The standard libraries that a runtime's interpreter is built with.
pub open spec fn base_library_list() -> Seq<BaseLibrary> {
    seq![
        BaseLibrary::Coroutine,
        BaseLibrary::Table,
        BaseLibrary::String,
        BaseLibrary::Utf8,
        BaseLibrary::Math,
        BaseLibrary::Debug,
    ]
}

/// The standard libraries that a runtime's interpreter is built with, for
/// trusted and sandboxed scripts alike. None of them reaches the file system
/// or the operating system.
pub fn base_libraries() -> (libraries: Vec<BaseLibrary>)
    ensures
        libraries@ == base_library_list(),
        forall|i: int| 0 <= i < libraries@.len() ==> !(#[trigger] libraries@[i]).reaches_outside(),
{
    let mut libraries: Vec<BaseLibrary> = Vec::new();
    libraries.push(BaseLibrary::Coroutine);
    libraries.push(BaseLibrary::Table);
    libraries.push(BaseLibrary::String);
    libraries.push(BaseLibrary::Utf8);
    libraries.push(BaseLibrary::Math);
    libraries.push(BaseLibrary::Debug);
    libraries
}

/// The global table that holds the entry points of the sandbox, or those of
/// the trusted scripts.
pub fn entry_table_name(sandbox: bool) -> (name: &'static str)
    ensures
        name@ == if sandbox {
            "sandbox"@
        } else {
            "bot"@
        },
{
    if sandbox {
        "sandbox"
    } else {
        "bot"
    }
}

/// An entry point of the scripts, which the host calls.
#[derive(Clone, Copy, Debug, PartialEq, Eq, Structural)]
pub enum EntryPoint {
    /// The tick of the scripts, in the sandbox's table and in the trusted
    /// scripts' table.
    Think,
    /// The start of a sandboxed run, in the sandbox's table.
    Run,
    /// A command for the trusted scripts, in their table.
    OnCommand,
    /// The end of a future on the way through the sandbox, in the sandbox's
    /// table.
    AsyncCallback,
}

impl EntryPoint {
    /// The field of its table under which the entry point stands.
    pub open spec fn field(self) -> Seq<char> {
        match self {
            EntryPoint::Think => "think"@,
            EntryPoint::Run => "run"@,
            EntryPoint::OnCommand => "on_command"@,
            EntryPoint::AsyncCallback => "async_callback"@,
        }
    }

    /// The field of its table under which the entry point stands.
    pub fn name(&self) -> (name: &'static str)
        ensures
            name@ == self.field(),
    {
        match self {
            EntryPoint::Think => "think",
            EntryPoint::Run => "run",
            EntryPoint::OnCommand => "on_command",
            EntryPoint::AsyncCallback => "async_callback",
        }
    }
}

/// True if `failure` is one that calling the entry point `entry` of the
/// global table `table` can come to: an error that the interpreter raised,
/// or the host's own where the scripts have no such table or no such
/// function in it.
pub open spec fn entry_failure(failure: HostError, table: Seq<char>, entry: EntryPoint) -> bool {
    ||| failure.is_raised(HostStage::EntryPoint)
    ||| failure.is_own(HostStage::EntryPoint, no_table_message(table))
    ||| failure.is_own(HostStage::EntryPoint, no_function_message(entry.field()))
}

/// True if `failure` is one that ending a future can come to: an error
/// that the interpreter raised, or the host's own where the slot of the
/// future holds no table, where the future has no entry point `resolve` or
/// `reject`, or where the scripts have no `sandbox.async_callback`.
pub open spec fn resolution_failure(failure: HostError) -> bool {
    ||| failure.is_raised(HostStage::Resolution)
    ||| failure.is_own(HostStage::Resolution, lost_future_message())
    ||| failure.is_own(HostStage::Resolution, no_table_message("sandbox"@))
    ||| failure.is_own(HostStage::Resolution, no_function_message("async_callback"@))
    ||| failure.is_own(HostStage::Resolution, no_function_message("resolve"@))
    ||| failure.is_own(HostStage::Resolution, no_function_message("reject"@))
}

/// True if `grown` is `before` with entries added behind it, or `before`
/// itself.
pub open spec fn is_growth<T>(before: Seq<T>, grown: Seq<T>) -> bool {
    before.len() <= grown.len() && grown.subrange(0, before.len() as int) == before
}

/// True if `value` is the interpreter's value for `plain`.
pub open spec fn stands_for(value: mlua::Value, plain: ScriptValue) -> bool {
    match plain {
        ScriptValue::Nil => nil_in(value),
        ScriptValue::Boolean(flag) => value == lua_boolean(flag),
        ScriptValue::Integer(number) => value == lua_integer(number),
        ScriptValue::Text(text) => text_in(value) == Some(text@),
    }
}

/// The arguments of `on_command`: the message, then the list of the
/// command's arguments.
pub fn command_arguments(msg: mlua::Value, list: mlua::Value) -> (arguments: Vec<mlua::Value>)
    ensures
        arguments@ == seq![msg, list],
{
    let mut arguments: Vec<mlua::Value> = Vec::new();
    arguments.push(msg);
    arguments.push(list);
    arguments
}

/// The arguments of the sandbox's `run`: the context of the run, then the
/// source.
pub fn run_arguments(context: mlua::Value, source: mlua::Value) -> (arguments: Vec<mlua::Value>)
    ensures
        arguments@ == seq![context, source],
{
    let mut arguments: Vec<mlua::Value> = Vec::new();
    arguments.push(context);
    arguments.push(source);
    arguments
}

/// The name under which the bootstrap script is run.
pub fn bootstrap_name(sandbox: bool) -> (name: &'static str)
    ensures
        name@ == if sandbox {
            "sandbox.lua"@
        } else {
            "bot.lua"@
        },
{
    if sandbox {
        "sandbox.lua"
    } else {
        "bot.lua"
    }
}

/// What the drain of a backlog came to.
pub struct Drained {
    /// The futures that were ended, from the front of the backlog on.
    pub resolved: usize,
    /// The failure that stopped the drain, if one did. The entry that
    /// failed has left the backlog too, and its handles were given up.
    pub failure: Option<HostError>,
}

impl Drained {
    /// The entries that left the backlog.
    pub open spec fn taken(self) -> int {
        if self.failure is Some {
            self.resolved + 1
        } else {
            self.resolved as int
        }
    }
}

/// One interpreter with what the host needs to drive it.
pub struct LuaState {
    inner: mlua::Lua,
    sandbox: bool,
    async_sender: Outbox<LuaAsyncCallback>,
    async_receiver: Receiver<LuaAsyncCallback>,
    timer_receiver: Receiver<TimerRequest>,
    fetch_sender: Outbox<FetchRequest>,
    fetch_receiver: Receiver<FetchRequest>,
    backlog: Vec<LuaAsyncCallback>,
    done: Ghost<Seq<LuaAsyncCallback>>,
    http_rate_limiter: HttpRateLimiter,
}

impl LuaState {
    /// True if the runtime runs untrusted scripts.
    pub closed spec fn sandboxed(&self) -> bool {
        self.sandbox
    }

    /// The entries that were taken off the bridge and whose futures are not
    /// ended yet, oldest first.
    pub closed spec fn backlog(&self) -> Seq<LuaAsyncCallback> {
        self.backlog@
    }

    /// Sets a runtime up around `inner`, an interpreter built with
    /// `base_libraries`: registers the async library and the capabilities of
    /// sandboxed runs, runs `bootstrap` as the bootstrap script of the kind
    /// that `sandbox` names, and caps the heap at `MEMORY_LIMIT`. A failure
    /// is one of the `Bootstrap` stage.
    pub fn create_state(inner: mlua::Lua, sandbox: bool, bootstrap: &str) -> (created: Result<
        LuaState,
        HostError,
    >)
        ensures
            created matches Ok(state) ==> state.sandboxed() == sandbox && state.backlog().len()
                == 0,
            created matches Ok(state) ==> state.ended().len() == 0,
            created matches Ok(state) ==> *state.interpreter() == inner,
            created matches Ok(state) ==> quota_per_second(state.limiter())
                == HTTP_CALLS_PER_SECOND,
            created matches Err(failure) ==> failure.is_raised(HostStage::Bootstrap),
    {
        let (async_sender, async_receiver) = Outbox::<LuaAsyncCallback>::open();
        let (fetch_sender, fetch_receiver) = Outbox::<FetchRequest>::open();
        let timer_receiver = match lib_async(&inner) {
            Ok(requests) => requests,
            Err(failure) => return Err(failure),
        };
        match register_context_type(&inner) {
            Ok(()) => {},
            Err(error) => return Err(host_error(HostStage::Bootstrap, error)),
        }
        match run_chunk(&inner, bootstrap_name(sandbox), bootstrap) {
            Ok(()) => {},
            Err(error) => return Err(host_error(HostStage::Bootstrap, error)),
        }
        match set_memory_limit(&inner, MEMORY_LIMIT) {
            Ok(_) => {},
            Err(error) => return Err(host_error(HostStage::Bootstrap, error)),
        }
        Ok(
            LuaState {
                inner,
                sandbox,
                async_sender,
                async_receiver,
                timer_receiver,
                fetch_sender,
                fetch_receiver,
                backlog: Vec::new(),
                done: Ghost(Seq::empty()),
                http_rate_limiter: HttpRateLimiter::new(),
            },
        )
    }

    /// The interpreter, for registering capabilities.
    pub fn lua(&self) -> (lua: &mlua::Lua)
        ensures
            lua == self.interpreter(),
    {
        &self.inner
    }

    pub fn is_sandboxed(&self) -> (sandbox: bool)
        ensures
            sandbox == self.sandboxed(),
    {
        self.sandbox
    }

    /// The number of entries in the backlog.
    pub fn backlog_len(&self) -> (count: usize)
        ensures
            count == self.backlog().len(),
    {
        self.backlog.len()
    }

    /// A sending end of the bridge, for native work to report how it ended.
    pub fn async_sender(&self) -> (sender: Sender<LuaAsyncCallback>)
        ensures
            sender == self.bridge(),
    {
        self.async_sender.sender()
    }

    /// A receiving end of the queue of delays that scripts asked for.
    pub fn timer_requests(&self) -> (receiver: Receiver<TimerRequest>)
        ensures
            receiver == self.timers(),
    {
        another_receiver(&self.timer_receiver)
    }

    /// A receiving end of the queue of outbound calls that sandboxed runs
    /// started.
    pub fn fetch_requests(&self) -> (receiver: Receiver<FetchRequest>)
        ensures
            receiver == self.fetches(),
    {
        another_receiver(&self.fetch_receiver)
    }

    /// A handle to the limiter that all sandboxed runs of this runtime
    /// share.
    pub fn http_rate_limiter(&self) -> (limiter: HttpRateLimiter)
        ensures
            limiter == self.limiter(),
    {
        self.http_rate_limiter.share()
    }

    /// Looks the entry point `entry` up in the global table `table`. A
    /// failure is one of the `EntryPoint` stage.
    fn find_entry(&self, table: &str, entry: EntryPoint) -> (found: Result<
        mlua::Function,
        HostError,
    >)
        ensures
            found matches Err(failure) ==> entry_failure(failure, table@, entry),
    {
        let table = match global_table(&self.inner, table, HostStage::EntryPoint) {
            Ok(table) => table,
            Err(failure) => return Err(failure),
        };
        table_function(&table, entry.name(), HostStage::EntryPoint)
    }

    /// Calls the entry point `entry` of the global table `table` on
    /// `arguments`. A failure is one of the `EntryPoint` stage.
    fn call_entry(&self, table: &str, entry: EntryPoint, arguments: Vec<mlua::Value>) -> (done:
        Result<(), HostError>)
        ensures
            done matches Err(failure) ==> entry_failure(failure, table@, entry),
    {
        let function = match self.find_entry(table, entry) {
            Ok(function) => function,
            Err(failure) => return Err(failure),
        };
        match call_function(&function, arguments) {
            Ok(_) => Ok(()),
            Err(error) => Err(host_error(HostStage::EntryPoint, error)),
        }
    }

    /// The interpreter's value for `plain`. Only a text can make this fail:
    /// it has to be stored in the interpreter's heap.
    pub fn to_value(&self, plain: &ScriptValue) -> (value: Result<mlua::Value, mlua::Error>)
        ensures
            !(plain is Text) ==> value is Ok,
            value matches Ok(made) ==> stands_for(made, *plain),
    {
        match plain {
            ScriptValue::Nil => Ok(nil_value()),
            ScriptValue::Boolean(flag) => Ok(boolean_value(*flag)),
            ScriptValue::Integer(number) => Ok(integer_value(*number)),
            ScriptValue::Text(text) => string_value(&self.inner, text.as_str()),
        }
    }

    /// Hands a command to the trusted scripts: calls their `on_command` on
    /// `msg` and on the list of `args`, as `command_arguments` lays them
    /// out. An error of the interpreter comes back as it was raised, in a
    /// failure of the `EntryPoint` stage.
    pub fn run_bot_command(&self, msg: ScriptValue, args: Vec<String>) -> (done: Result<
        (),
        HostError,
    >)
        ensures
            done matches Err(failure) ==> entry_failure(failure, "bot"@, EntryPoint::OnCommand),
    {
        let message = match self.to_value(&msg) {
            Ok(message) => message,
            Err(error) => return Err(host_error(HostStage::EntryPoint, error)),
        };
        let list = match strings_value(&self.inner, &args) {
            Ok(list) => list,
            Err(error) => return Err(host_error(HostStage::EntryPoint, error)),
        };
        self.call_entry(
            entry_table_name(false),
            EntryPoint::OnCommand,
            command_arguments(message, list),
        )
    }

    /// Starts a sandboxed run of `source`. The sandbox's `run` is looked up
    /// first: where the scripts have none, nothing else is done. Then a
    /// fresh context with full budgets and a queue of its own for its
    /// messages is made and becomes the current sandbox, and `run` is called
    /// on the context and `source`, as `run_arguments` lays them out. The
    /// answer is a handle to the context, for `sandbox_limits`,
    /// `sandbox_instructions_run` and `end_run`, and the receiving end of
    /// the messages. A failure is one of the `EntryPoint` stage.
    pub fn run_sandboxed(&self, source: &str) -> (started: Result<
        (SandboxState, Receiver<SandboxMsg>),
        HostError,
    >)
        ensures
            started matches Err(failure) ==> entry_failure(failure, "sandbox"@, EntryPoint::Run),
    {
        let run = match self.find_entry(entry_table_name(true), EntryPoint::Run) {
            Ok(run) => run,
            Err(failure) => return Err(failure),
        };
        let (sender, receiver) = Outbox::<SandboxMsg>::open();
        let context = SandboxStateInner::new(
            self.fetch_sender.share(),
            sender,
            self.http_rate_limiter.share(),
        );
        let object = match context_object(&self.inner, context) {
            Ok(object) => object,
            Err(error) => return Err(host_error(HostStage::EntryPoint, error)),
        };
        let text = match string_value(&self.inner, source) {
            Ok(text) => text,
            Err(error) => return Err(host_error(HostStage::EntryPoint, error)),
        };
        let handle = match SandboxState::keep(&self.inner, another_value(&object)) {
            Ok(handle) => handle,
            Err(failure) => return Err(failure),
        };
        match SandboxState::install(&self.inner, another_value(&object)) {
            Ok(()) => {},
            Err(failure) => {
                let _ = handle.release(&self.inner);
                return Err(failure);
            },
        }
        match call_function(&run, run_arguments(object, text)) {
            Ok(_) => Ok((handle, receiver)),
            Err(error) => {
                let _ = handle.release(&self.inner);
                Err(host_error(HostStage::EntryPoint, error))
            },
        }
    }

    /// What is left of the budgets of the run of `run`. There is no answer
    /// for a handle of another runtime, and none while a capability of the
    /// run is at work.
    pub fn sandbox_limits(&self, run: &SandboxState) -> (limits: Option<SandboxLimits>) {
        match run.context(&self.inner) {
            Ok(context) => match context_reading(&context) {
                Some(reading) => Some(reading.0),
                None => None,
            },
            Err(_) => None,
        }
    }

    /// The interpreter steps that the run of `run` has taken, as its script
    /// last reported. There is no answer for a handle of another runtime,
    /// and none while a capability of the run is at work.
    pub fn sandbox_instructions_run(&self, run: &SandboxState) -> (steps: Option<u64>) {
        match run.context(&self.inner) {
            Ok(context) => match context_reading(&context) {
                Some(reading) => Some(reading.1),
                None => None,
            },
            Err(_) => None,
        }
    }

    /// Gives the handle of a run up. The context lives on for as long as
    /// the scripts or a pending future hold it. A failure is one of the
    /// `Resolution` stage.
    pub fn end_run(&self, run: SandboxState) -> (done: Result<(), HostError>)
        ensures
            done matches Err(failure) ==> failure.is_raised(HostStage::Resolution),
    {
        run.release(&self.inner)
    }

    /// Appends the interpreter's values for `values` to `arguments`, in
    /// their order.
    fn push_values(&self, arguments: &mut Vec<mlua::Value>, values: &Vec<ScriptValue>) -> (done:
        Result<(), mlua::Error>)
        ensures
            holds_no_text(values@) ==> done is Ok,
            done is Ok ==> final(arguments)@.len() == old(arguments)@.len() + values@.len(),
            done is Ok ==> final(arguments)@.subrange(0, old(arguments)@.len() as int) == old(
                arguments
            )@,
            done is Ok ==> forall|i: int|
                0 <= i < values@.len() ==> stands_for(
                    final(arguments)@[old(arguments)@.len() + i],
                    #[trigger] values@[i],
                ),
    {
        let ghost before = arguments@;
        let mut next: usize = 0;
        while next < values.len()
            invariant
                next <= values@.len(),
                arguments@.len() == before.len() + next,
                arguments@.subrange(0, before.len() as int) == before,
                forall|i: int|
                    0 <= i < next ==> stands_for(
                        arguments@[before.len() + i],
                        #[trigger] values@[i],
                    ),
            decreases values@.len() - next,
        {
            let value = match self.to_value(&values[next]) {
                Ok(value) => value,
                Err(error) => {
                    assert(values@[next as int] is Text);
                    return Err(error);
                },
            };
            arguments.push(value);
            next = next + 1;
        }
        Ok(())
    }

    /// The arguments of the call that ends `future` as `plan` says. Through
    /// the sandbox, with the context of the run, they are the context, the
    /// future, the flag that says whether the work succeeded, and the
    /// values. On the direct way they are the future, `true`, and the
    /// values. Only a text among the values can make this fail: it has to
    /// be stored in the interpreter's heap.
    pub fn resolution_arguments(
        &self,
        plan: &Resolution,
        future: mlua::Value,
        context: Option<mlua::Value>,
    ) -> (arguments: Result<Vec<mlua::Value>, mlua::Error>)
        ensures
            holds_no_text(plan.values@) ==> arguments is Ok,
            arguments matches Ok(list) ==> match context {
                Some(context) => {
                    &&& list@.len() == 3 + plan.values@.len()
                    &&& list@[0] == context
                    &&& list@[1] == future
                    &&& list@[2] == lua_boolean(plan.hook == ResolutionHook::Resolve)
                },
                None => {
                    &&& list@.len() == 2 + plan.values@.len()
                    &&& list@[0] == future
                    &&& list@[1] == lua_boolean(true)
                },
            },
            arguments matches Ok(list) ==> forall|i: int|
                0 <= i < plan.values@.len() ==> stands_for(
                    list@[list@.len() - plan.values@.len() + i],
                    #[trigger] plan.values@[i],
                ),
    {
        let mut list: Vec<mlua::Value> = Vec::new();
        match context {
            Some(context) => {
                list.push(context);
                list.push(future);
                list.push(boolean_value(plan.hook.succeeded()));
            },
            None => {
                list.push(future);
                list.push(boolean_value(true));
            },
        }
        let ghost head = list@;
        match self.push_values(&mut list, &plan.values) {
            Ok(()) => {
                assert(forall|i: int| 0 <= i < head.len() ==> list@[i] == list@.subrange(
                    0,
                    head.len() as int,
                )[i]);
                Ok(list)
            },
            Err(error) => Err(error),
        }
    }

    /// Ends the future of `future` as `plan` says. On the way through the
    /// sandbox the context of the run is made the current sandbox first, so
    /// that work which the continuation starts is started under it.
    fn perform(&self, plan: &Resolution, future: &FutureHandle, sandbox: &Option<SandboxState>) -> (done:
        Result<(), HostError>)
        requires
            sandbox is Some <==> plan.route == ResolutionRoute::ThroughSandbox,
        ensures
            done matches Err(failure) ==> resolution_failure(failure),
    {
        let table = match future.future(&self.inner) {
            Ok(table) => table,
            Err(failure) => return Err(failure),
        };
        let (entry, context) = match (plan.route, sandbox) {
            (ResolutionRoute::ThroughSandbox, Some(sandbox)) => {
                let library = match global_table(
                    &self.inner,
                    entry_table_name(true),
                    HostStage::Resolution,
                ) {
                    Ok(library) => library,
                    Err(failure) => return Err(failure),
                };
                let entry = match table_function(
                    &library,
                    EntryPoint::AsyncCallback.name(),
                    HostStage::Resolution,
                ) {
                    Ok(entry) => entry,
                    Err(failure) => return Err(failure),
                };
                let context = match sandbox.context(&self.inner) {
                    Ok(context) => context,
                    Err(failure) => return Err(failure),
                };
                match SandboxState::install(&self.inner, another_value(&context)) {
                    Ok(()) => {},
                    Err(failure) => return Err(
                        HostError {
                            stage: HostStage::Resolution,
                            message: failure.message,
                            cause: failure.cause,
                        },
                    ),
                }
                (entry, Some(context))
            },
            _ => {
                let entry = match table_function(
                    &table,
                    plan.hook.name(),
                    HostStage::Resolution,
                ) {
                    Ok(entry) => entry,
                    Err(failure) => return Err(failure),
                };
                (entry, None)
            },
        };
        let arguments = match self.resolution_arguments(plan, table_value(&table), context) {
            Ok(arguments) => arguments,
            Err(error) => return Err(host_error(HostStage::Resolution, error)),
        };
        match call_function(&entry, arguments) {
            Ok(_) => Ok(()),
            Err(error) => Err(host_error(HostStage::Resolution, error)),
        }
    }

    /// Ends the future of one entry of the bridge, and gives up what kept it
    /// and its sandbox context alive, whether or not ending it succeeded.
    /// The entry is used up. Of the three steps the first that failed comes
    /// back, as `first_failure` says. A failure is one of the `Resolution`
    /// stage.
    pub fn resolve(&self, entry: LuaAsyncCallback) -> (done: Result<(), HostError>)
        ensures
            done matches Err(failure) ==> resolution_failure(failure),
    {
        let LuaAsyncCallback { future, sandbox, completion } = entry;
        let plan = Resolution::plan(completion, sandbox.is_some());
        let ended = self.perform(&plan, &future, &sandbox);
        let freed = future.release(&self.inner);
        let context_freed = match sandbox {
            Some(sandbox) => sandbox.release(&self.inner),
            None => Ok(()),
        };
        first_failure(ended, freed, context_freed)
    }

    /// Takes the entries that stand on the bridge now into the backlog, in
    /// their order, behind those that it holds already. Entries that arrive
    /// while this runs wait for the next call.
    pub fn intake(&mut self) -> (taken: usize)
        ensures
            final(self).wired_as(*old(self)),
            final(self).sandboxed() == old(self).sandboxed(),
            final(self).ended() == old(self).ended(),
            final(self).backlog().len() == old(self).backlog().len() + taken,
            final(self).backlog().subrange(0, old(self).backlog().len() as int) == old(
                self
            ).backlog(),
    {
        let waiting: usize = queued(&self.async_receiver);
        let ghost before = self.backlog@;
        let mut taken: usize = 0;
        while taken < waiting
            invariant
                self.wired_as(*old(self)),
                self.sandbox == old(self).sandbox,
                self.done@ == old(self).done@,
                before == old(self).backlog@,
                self.backlog@.len() == before.len() + taken,
                self.backlog@.subrange(0, before.len() as int) == before,
            decreases waiting - taken,
        {
            match try_recv(&self.async_receiver) {
                Some(entry) => {
                    self.backlog.push(entry);
                    taken = taken + 1;
                },
                None => {
                    return taken;
                },
            }
        }
        taken
    }

    /// Ends the futures of the backlog, oldest first, until the backlog is
    /// empty or one fails. Each entry that is taken up leaves the backlog
    /// and is handed to `resolve` once. The entry that failed is not tried
    /// again; those behind it stay for the next drain.
    pub fn drain(&mut self) -> (drained: Drained)
        ensures
            final(self).wired_as(*old(self)),
            final(self).sandboxed() == old(self).sandboxed(),
            0 <= drained.taken() <= old(self).backlog().len(),
            final(self).backlog() == old(self).backlog().skip(drained.taken()),
            final(self).ended() == old(self).ended() + old(self).backlog().take(drained.taken()),
            forall|i: int|
                drained.taken() <= i < old(self).backlog().len() ==> final(self).backlog()[i
                    - drained.taken()] == #[trigger] old(self).backlog()[i],
            drained.failure is None ==> final(self).backlog().len() == 0,
            drained.failure matches Some(failure) ==> resolution_failure(failure),
    {
        let ghost before = self.backlog@;
        let total: usize = self.backlog.len();
        let mut resolved: usize = 0;
        while self.backlog.len() > 0
            invariant
                self.wired_as(*old(self)),
                self.sandbox == old(self).sandbox,
                before == old(self).backlog@,
                resolved <= before.len() == total,
                self.backlog@ == before.skip(resolved as int),
                self.done@ == old(self).done@ + before.take(resolved as int),
            decreases self.backlog@.len(),
        {
            let entry = self.backlog.remove(0);
            self.done = Ghost(self.done@.push(entry));
            assert(self.done@ =~= old(self).done@ + before.take(resolved + 1));
            match self.resolve(entry) {
                Ok(()) => {
                    resolved = resolved + 1;
                },
                Err(failure) => {
                    return Drained { resolved, failure: Some(failure) };
                },
            }
        }
        Drained { resolved, failure: None }
    }

    /// One tick. Calls the `think` entry point of the scripts, then takes in
    /// what stands on the bridge and ends the futures of the backlog, oldest
    /// first. On success every entry that stood in the backlog, and every
    /// entry that was taken in, has been taken up once, in that order, and
    /// the backlog is empty. The first failure ends the tick and comes back:
    /// one of the entry point leaves the backlog as it was and ends nothing;
    /// one of a resolution leaves in the backlog what stood behind the entry
    /// that failed, for the next tick.
    pub fn think(&mut self) -> (done: Result<(), HostError>)
        ensures
            final(self).wired_as(*old(self)),
            final(self).sandboxed() == old(self).sandboxed(),
            done is Ok ==> final(self).backlog().len() == 0,
            done matches Err(failure) ==> resolution_failure(failure) || entry_failure(
                failure,
                if old(self).sandboxed() {
                    "sandbox"@
                } else {
                    "bot"@
                },
                EntryPoint::Think,
            ),
            done matches Err(failure) && failure.stage == HostStage::EntryPoint ==> final(
                self
            ).backlog() == old(self).backlog() && final(self).ended() == old(self).ended(),
            done is Ok ==> exists|grown: Seq<LuaAsyncCallback>|
                {
                    &&& #[trigger] is_growth(old(self).backlog(), grown)
                    &&& final(self).ended() == old(self).ended() + grown
                },
            done matches Err(failure) && failure.stage == HostStage::Resolution ==> exists|
                grown: Seq<LuaAsyncCallback>,
                taken: int,
            |
                {
                    &&& is_growth(old(self).backlog(), grown)
                    &&& 1 <= taken <= grown.len()
                    &&& final(self).backlog() == #[trigger] grown.skip(taken)
                    &&& final(self).ended() == old(self).ended() + grown.take(taken)
                },
    {
        match self.call_entry(entry_table_name(self.sandbox), EntryPoint::Think, Vec::new()) {
            Ok(()) => {},
            Err(failure) => return Err(failure),
        }
        let _ = self.intake();
        let ghost grown = self.backlog@;
        assert(is_growth(old(self).backlog(), grown));
        let drained = self.drain();
        match drained.failure {
            Some(failure) => {
                assert(self.backlog@ == grown.skip(drained.taken()));
                Err(failure)
            },
            None => {
                assert(grown.take(drained.taken()) =~= grown);
                Ok(())
            },
        }
    }

    /// The entries whose futures the runtime has ended, or tried to end and
    /// failed, in the order in which it took them up. Each entry stands here
    /// once: it left the backlog when it was taken up.
    pub closed spec fn ended(&self) -> Seq<LuaAsyncCallback> {
        self.done@
    }

    /// The interpreter of the runtime.
    pub closed spec fn interpreter(&self) -> &mlua::Lua {
        &self.inner
    }

    /// The sending end of the bridge.
    pub closed spec fn bridge(&self) -> Sender<LuaAsyncCallback> {
        self.async_sender.end()
    }

    /// The receiving end of the queue of delays that scripts asked for.
    pub closed spec fn timers(&self) -> Receiver<TimerRequest> {
        self.timer_receiver
    }

    /// The receiving end of the queue of outbound calls that sandboxed runs
    /// started.
    pub closed spec fn fetches(&self) -> Receiver<FetchRequest> {
        self.fetch_receiver
    }

    /// The limiter that all sandboxed runs of the runtime share.
    pub closed spec fn limiter(&self) -> HttpRateLimiter {
        self.http_rate_limiter
    }

    /// True if `self` is the runtime `before` but for its backlog: the same
    /// interpreter, of the same kind, with the same queues and limiter.
    pub closed spec fn wired_as(&self, before: LuaState) -> bool {
        &&& self.inner == before.inner
        &&& self.sandbox == before.sandbox
        &&& self.async_sender == before.async_sender
        &&& self.async_receiver == before.async_receiver
        &&& self.timer_receiver == before.timer_receiver
        &&& self.fetch_sender == before.fetch_sender
        &&& self.fetch_receiver == before.fetch_receiver
        &&& self.http_rate_limiter == before.http_rate_limiter
    }

    /// A runtime that is wired as another has its interpreter, its queues
    /// and its limiter.
    pub proof fn lemma_wired_as(&self, before: LuaState)
        requires
            self.wired_as(before),
        ensures
            self.interpreter() == before.interpreter(),
            self.sandboxed() == before.sandboxed(),
            self.bridge() == before.bridge(),
            self.timers() == before.timers(),
            self.fetches() == before.fetches(),
            self.limiter() == before.limiter(),
    {
    }
}

/// What a resolution came to, from what its three steps came to: ending
/// the future, giving up the future's slot, giving up the context's slot.
/// The first step that failed is the failure of the whole; the later steps
/// were taken all the same.
pub open spec fn first_of(
    ended: Result<(), HostError>,
    freed: Result<(), HostError>,
    context_freed: Result<(), HostError>,
) -> Result<(), HostError> {
    if ended is Err {
        ended
    } else if freed is Err {
        freed
    } else {
        context_freed
    }
}

/// What a resolution came to, from what its three steps came to.
pub fn first_failure(
    ended: Result<(), HostError>,
    freed: Result<(), HostError>,
    context_freed: Result<(), HostError>,
) -> (done: Result<(), HostError>)
    ensures
        done == first_of(ended, freed, context_freed),
{
    match ended {
        Err(failure) => Err(failure),
        Ok(()) => match freed {
            Err(failure) => Err(failure),
            Ok(()) => context_freed,
        },
    }
}

} // verus!
