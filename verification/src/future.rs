//! Futures, as the host holds them.
//!
//! A future is a table in the interpreter's heap. Between the call that
//! starts native work and the tick that ends the future, no script variable
//! need hold it, so the host keeps it alive: it stores the table in a
//! registry slot and carries the key. The key cannot be copied, and ending
//! the future uses it up, so a future is ended once at most.

use vstd::prelude::*;
use vstd::string::*;

use crate::delay::{encodes_valid_delay, DelaySeconds};
use crate::error::{HostError, HostStage};
use crate::lua::{
    call_function, create_registry_value, error_text, function_in, globals, lua_runtime_error,
    named_registry_value, nil_in, registry_value, remove_registry_value, runtime_error,
    set_named_registry_value, table_get, table_in, table_value, value_into_function,
    value_into_table, value_is_nil,
};
use crate::sandbox::FetchStart;
use crate::value::{value_views, Completion, CompletionView, ScriptValue, ScriptValueView};

verus! {

/// The global table of the async library.
pub fn async_table_name() -> (name: &'static str)
    ensures
        name@ == "async"@,
{
    "async"
}

/// The field of the async library under which the scripts keep the
/// constructor of futures.
pub fn future_constructor_name() -> (name: &'static str)
    ensures
        name@ == "__RustFuture"@,
{
    "__RustFuture"
}

/// The registry name under which the context of the current sandboxed run
/// stands.
pub fn ambient_sandbox_name() -> (name: &'static str)
    ensures
        name@ == "__SANDBOX_STATE"@,
{
    "__SANDBOX_STATE"
}

/// An interpreter error as a failure of the host at `stage`. The failure
/// carries the error as it was raised.
pub(crate) fn host_error(stage: HostStage, error: mlua::Error) -> (failure: HostError)
    ensures
        failure.stage == stage,
        failure.cause == Some(error),
{
    HostError { stage, message: error_text(&error), cause: Some(error) }
}

/// The message of the failure that finds no table under `name`.
pub open spec fn no_table_message(name: Seq<char>) -> Seq<char> {
    "the scripts have no table "@ + name
}

/// The message of the failure that finds no function under `name`.
pub open spec fn no_function_message(name: Seq<char>) -> Seq<char> {
    "the scripts have no function "@ + name
}

/// The message of the failure that gets no table from the constructor of
/// futures.
pub open spec fn no_future_message() -> Seq<char> {
    "the future constructor returned no table"@
}

/// The message of the failure that finds no table in the slot of a future.
pub open spec fn lost_future_message() -> Seq<char> {
    "the registry slot of a future holds no table"@
}

/// True if `found` is what a lookup comes to that the interpreter answered
/// without an error: the thing itself where `wanted` holds it, and else the
/// host's own failure of `stage` with `message`, which has no error of the
/// interpreter behind it.
pub open spec fn found_or<T>(
    found: Result<T, HostError>,
    wanted: Option<T>,
    stage: HostStage,
    message: Seq<char>,
) -> bool {
    match wanted {
        Some(inside) => found == Ok::<T, HostError>(inside),
        None => found matches Err(failure) && failure.is_own(stage, message),
    }
}

/// The table that the scripts were asked for under `name`, from the value
/// that the interpreter found there: the value where it is a table, and
/// else the failure of `stage` that says that the scripts have no such
/// table.
pub fn expect_table(found: mlua::Value, stage: HostStage, name: &str) -> (table: Result<
    mlua::Table,
    HostError,
>)
    ensures
        found_or(table, table_in(found), stage, no_table_message(name@)),
{
    match value_into_table(found) {
        Some(table) => Ok(table),
        None => {
            let mut message = String::from_str("the scripts have no table ");
            message.append(name);
            Err(HostError::new(stage, message))
        },
    }
}

/// The function that the scripts were asked for under `name`, from the
/// value that the interpreter found there: the value where it is a
/// function, and else the failure of `stage` that says that the scripts
/// have no such function.
pub fn expect_function(found: mlua::Value, stage: HostStage, name: &str) -> (function: Result<
    mlua::Function,
    HostError,
>)
    ensures
        found_or(function, function_in(found), stage, no_function_message(name@)),
{
    match value_into_function(found) {
        Some(function) => Ok(function),
        None => {
            let mut message = String::from_str("the scripts have no function ");
            message.append(name);
            Err(HostError::new(stage, message))
        },
    }
}

/// The future that the constructor made, from the value that it returned:
/// the value where it is a table, and else a failure of the `Future` stage.
pub fn future_table(returned: mlua::Value) -> (future: Result<mlua::Table, HostError>)
    ensures
        found_or(future, table_in(returned), HostStage::Future, no_future_message()),
{
    match value_into_table(returned) {
        Some(future) => Ok(future),
        None => Err(
            HostError::new(
                HostStage::Future,
                String::from_str("the future constructor returned no table"),
            ),
        ),
    }
}

/// The future that a handle keeps, from the value that its slot held: the
/// value where it is a table, and else a failure of the `Resolution` stage.
pub fn kept_table(stored: mlua::Value) -> (future: Result<mlua::Table, HostError>)
    ensures
        found_or(future, table_in(stored), HostStage::Resolution, lost_future_message()),
{
    match value_into_table(stored) {
        Some(future) => Ok(future),
        None => Err(
            HostError::new(
                HostStage::Resolution,
                String::from_str("the registry slot of a future holds no table"),
            ),
        ),
    }
}

/// The context of the current sandboxed run, from what the interpreter
/// answered when it was asked for it: the value it gave, unless that is
/// nil. Nil, and an error of the interpreter, mean that no run is current.
pub fn current_sandbox(looked: Result<mlua::Value, mlua::Error>) -> (current: Option<mlua::Value>)
    ensures
        current == match looked {
            Ok(value) => if nil_in(value) {
                None
            } else {
                Some(value)
            },
            Err(_) => None,
        },
{
    match looked {
        Ok(value) => if value_is_nil(&value) {
            None
        } else {
            Some(value)
        },
        Err(_) => None,
    }
}

/// The script's answer to a capability that hands work to the native side,
/// from what the queue said when the request was sent: `answer` where the
/// queue took the request, and else the error with `complaint` as its
/// message.
pub fn handed_over(taken: bool, answer: mlua::Value, complaint: &str) -> (answered: Result<
    mlua::Value,
    mlua::Error,
>)
    ensures
        answered == if taken {
            Ok::<mlua::Value, mlua::Error>(answer)
        } else {
            Err::<mlua::Value, mlua::Error>(lua_runtime_error(complaint@))
        },
{
    if taken {
        Ok(answer)
    } else {
        Err(runtime_error(String::from_str(complaint)))
    }
}

/// The table that the scripts keep under the global `name`. A failure is one
/// of `stage`: the interpreter's own, or that of `expect_table`.
pub(crate) fn global_table(state: &mlua::Lua, name: &str, stage: HostStage) -> (table: Result<
    mlua::Table,
    HostError,
>)
    ensures
        table matches Err(failure) ==> failure.is_raised(stage) || failure.is_own(
            stage,
            no_table_message(name@),
        ),
{
    table_table(&globals(state), name, stage)
}

/// The table that `table` keeps under `name`. A failure is one of `stage`:
/// the interpreter's own, or that of `expect_table`.
fn table_table(table: &mlua::Table, name: &str, stage: HostStage) -> (found: Result<
    mlua::Table,
    HostError,
>)
    ensures
        found matches Err(failure) ==> failure.is_raised(stage) || failure.is_own(
            stage,
            no_table_message(name@),
        ),
{
    match table_get(table, name) {
        Ok(value) => expect_table(value, stage, name),
        Err(error) => Err(host_error(stage, error)),
    }
}

/// The entry point that `table` keeps under `name`. A failure is one of
/// `stage`: the interpreter's own, or that of `expect_function`.
pub(crate) fn table_function(table: &mlua::Table, name: &str, stage: HostStage) -> (function:
    Result<mlua::Function, HostError>)
    ensures
        function matches Err(failure) ==> failure.is_raised(stage) || failure.is_own(
            stage,
            no_function_message(name@),
        ),
{
    match table_get(table, name) {
        Ok(value) => expect_function(value, stage, name),
        Err(error) => Err(host_error(stage, error)),
    }
}

/// The key that keeps one pending future alive.
pub struct FutureHandle {
    key: mlua::RegistryKey,
}

/// The key that keeps the context object of a sandboxed run alive for one
/// pending future.
pub struct SandboxState {
    key: mlua::RegistryKey,
}

/// True if `failure` is one that making a future can come to: an error
/// that the interpreter raised, or the host's own where the scripts have no
/// table `async`, no constructor in it, or a constructor that returned no
/// table.
pub open spec fn future_failure(failure: HostError) -> bool {
    ||| failure.is_raised(HostStage::Future)
    ||| failure.is_own(HostStage::Future, no_table_message("async"@))
    ||| failure.is_own(HostStage::Future, no_function_message("__RustFuture"@))
    ||| failure.is_own(HostStage::Future, no_future_message())
}

/// Makes a future: calls the constructor that the scripts registered, and
/// stores the table it returns in a registry slot. A failure is one of the
/// `Future` stage: an error that the interpreter raised, or the host's own
/// where the scripts have no table `async` or no constructor in it (as
/// `expect_table` and `expect_function` say) or where the constructor
/// returned no table (as `future_table` says). Nothing is stored then.
pub fn create_future(state: &mlua::Lua) -> (made: Result<(FutureHandle, mlua::Table), HostError>)
    ensures
        made matches Err(failure) ==> future_failure(failure),
{
    let library = match global_table(state, async_table_name(), HostStage::Future) {
        Ok(library) => library,
        Err(failure) => return Err(failure),
    };
    let constructor = match table_function(
        &library,
        future_constructor_name(),
        HostStage::Future,
    ) {
        Ok(constructor) => constructor,
        Err(failure) => return Err(failure),
    };
    let returned = match call_function(&constructor, Vec::new()) {
        Ok(returned) => returned,
        Err(error) => return Err(host_error(HostStage::Future, error)),
    };
    let future = match future_table(returned) {
        Ok(future) => future,
        Err(failure) => return Err(failure),
    };
    match create_registry_value(state, table_value(&future)) {
        Ok(key) => Ok((FutureHandle { key }, future)),
        Err(error) => Err(host_error(HostStage::Future, error)),
    }
}

impl FutureHandle {
    /// The future that the handle keeps alive. A failure is one of the
    /// `Resolution` stage.
    pub fn future(&self, state: &mlua::Lua) -> (found: Result<mlua::Table, HostError>)
        ensures
            found matches Err(failure) ==> failure.is_raised(HostStage::Resolution)
                || failure.is_own(HostStage::Resolution, lost_future_message()),
    {
        match registry_value(state, &self.key) {
            Ok(stored) => kept_table(stored),
            Err(error) => Err(host_error(HostStage::Resolution, error)),
        }
    }

    /// Gives the registry slot up. The handle is used up: nothing can end
    /// the future through it again.
    pub fn release(self, state: &mlua::Lua) -> (done: Result<(), HostError>)
        ensures
            done matches Err(failure) ==> failure.is_raised(HostStage::Resolution),
    {
        match remove_registry_value(state, self.key) {
            Ok(()) => Ok(()),
            Err(error) => Err(host_error(HostStage::Resolution, error)),
        }
    }
}

impl SandboxState {
    /// Makes `context` the context of the current sandboxed run. It stays so
    /// until the next call: the slot is no stack.
    pub(crate) fn install(state: &mlua::Lua, context: mlua::Value) -> (done: Result<
        (),
        HostError,
    >)
        ensures
            done matches Err(failure) ==> failure.is_raised(HostStage::EntryPoint),
    {
        match set_named_registry_value(state, ambient_sandbox_name(), context) {
            Ok(()) => Ok(()),
            Err(error) => Err(host_error(HostStage::EntryPoint, error)),
        }
    }

    /// Captures the context of the current sandboxed run, for native work
    /// that starts now: `None` where no run is current, as in a trusted
    /// runtime. A failure is one of the `Future` stage.
    pub fn capture(state: &mlua::Lua) -> (captured: Result<Option<SandboxState>, HostError>)
        ensures
            captured matches Err(failure) ==> failure.is_raised(HostStage::Future),
    {
        match current_sandbox(named_registry_value(state, ambient_sandbox_name())) {
            Some(current) => match create_registry_value(state, current) {
                Ok(key) => Ok(Some(SandboxState { key })),
                Err(error) => Err(host_error(HostStage::Future, error)),
            },
            None => Ok(None),
        }
    }

    /// Keeps `context`, the context object of a run, alive under a slot of
    /// its own. A failure is one of the `EntryPoint` stage.
    pub(crate) fn keep(state: &mlua::Lua, context: mlua::Value) -> (kept: Result<
        SandboxState,
        HostError,
    >)
        ensures
            kept matches Err(failure) ==> failure.is_raised(HostStage::EntryPoint),
    {
        match create_registry_value(state, context) {
            Ok(key) => Ok(SandboxState { key }),
            Err(error) => Err(host_error(HostStage::EntryPoint, error)),
        }
    }

    /// The context object that the handle keeps alive.
    pub fn context(&self, state: &mlua::Lua) -> (found: Result<mlua::Value, HostError>)
        ensures
            found matches Err(failure) ==> failure.is_raised(HostStage::Resolution),
    {
        match registry_value(state, &self.key) {
            Ok(context) => Ok(context),
            Err(error) => Err(host_error(HostStage::Resolution, error)),
        }
    }

    /// Gives the registry slot up.
    pub fn release(self, state: &mlua::Lua) -> (done: Result<(), HostError>)
        ensures
            done matches Err(failure) ==> failure.is_raised(HostStage::Resolution),
    {
        match remove_registry_value(state, self.key) {
            Ok(()) => Ok(()),
            Err(error) => Err(host_error(HostStage::Resolution, error)),
        }
    }
}

/// One entry of the bridge: a future whose native work has ended, the
/// sandbox context under which the work was started, and how it ended.
pub struct LuaAsyncCallback {
    pub future: FutureHandle,
    pub sandbox: Option<SandboxState>,
    pub completion: Completion,
}

/// Native work that was started and has not ended: the record that owns the
/// future's handle in between.
pub struct PendingCall {
    future: FutureHandle,
    sandbox: Option<SandboxState>,
}

impl PendingCall {
    /// The handle of the future that the script waits on.
    pub closed spec fn future(&self) -> FutureHandle {
        self.future
    }

    /// The sandbox context under which the work was started.
    pub closed spec fn sandbox(&self) -> Option<SandboxState> {
        self.sandbox
    }

    /// Starts a pending call: makes its future and captures the sandbox
    /// context that is current. The table is the future, for the script.
    pub fn begin(state: &mlua::Lua) -> (begun: Result<(PendingCall, mlua::Table), HostError>)
        ensures
            begun matches Err(failure) ==> future_failure(failure),
    {
        let (future, table) = match create_future(state) {
            Ok(made) => made,
            Err(failure) => return Err(failure),
        };
        match SandboxState::capture(state) {
            Ok(sandbox) => Ok((PendingCall { future, sandbox }, table)),
            Err(failure) => {
                let _ = future.release(state);
                Err(failure)
            },
        }
    }

    /// Ends the pending call: the one entry for the bridge that says how the
    /// work ended. The call is used up, so no second entry can be made for
    /// the same future.
    pub fn complete(self, completion: Completion) -> (entry: LuaAsyncCallback)
        ensures
            entry.future == self.future(),
            entry.sandbox == self.sandbox(),
            entry.completion == completion,
    {
        LuaAsyncCallback { future: self.future, sandbox: self.sandbox, completion }
    }
}

/// A delay that a script asked for and that the native side has to wait
/// out. One exists only for a delay that may be scheduled.
pub struct TimerRequest {
    call: PendingCall,
    delay: DelaySeconds,
}

impl TimerRequest {
    /// The pending call that the delay holds up.
    pub closed spec fn call(&self) -> PendingCall {
        self.call
    }

    /// The encoding of the number of seconds to wait.
    pub closed spec fn seconds(&self) -> u64 {
        self.delay@
    }

    pub(crate) fn new(call: PendingCall, delay: DelaySeconds) -> (request: TimerRequest)
        ensures
            request.call() == call,
            request.seconds() == delay@,
    {
        TimerRequest { call, delay }
    }

    /// The number of seconds to wait, in IEEE 754 binary64: finite and not
    /// below zero.
    pub fn seconds_bits(&self) -> (bits: u64)
        ensures
            bits == self.seconds(),
            encodes_valid_delay(bits),
    {
        self.delay.to_bits()
    }

    /// The delay has elapsed: the one entry for the bridge that resolves the
    /// future, with no value.
    pub fn elapsed(self) -> (entry: LuaAsyncCallback)
        ensures
            entry.future == self.call().future(),
            entry.sandbox == self.call().sandbox(),
            entry.completion@ == CompletionView::Resolved(Seq::<ScriptValueView>::empty()),
    {
        let values: Vec<ScriptValue> = Vec::new();
        assert(value_views(values@) =~= Seq::<ScriptValueView>::empty());
        self.call.complete(Completion::Resolved(values))
    }
}

/// An outbound call that a sandboxed run started and that the native side
/// has to make.
pub struct FetchRequest {
    call: PendingCall,
    url: String,
    options: Vec<(String, String)>,
    start: FetchStart,
}

impl FetchRequest {
    /// The pending call that waits for the result.
    pub closed spec fn call(&self) -> PendingCall {
        self.call
    }

    pub closed spec fn address(&self) -> Seq<char> {
        self.url@
    }

    pub closed spec fn started(&self) -> FetchStart {
        self.start
    }

    pub(crate) fn new(
        call: PendingCall,
        url: String,
        options: Vec<(String, String)>,
        start: FetchStart,
    ) -> (request: FetchRequest)
        ensures
            request.call() == call,
            request.address() == url@,
            request.fields() == options,
            request.started() == start,
    {
        FetchRequest { call, url, options, start }
    }

    /// The address to call.
    pub fn url(&self) -> (url: &str)
        ensures
            url@ == self.address(),
    {
        self.url.as_str()
    }

    /// The options of the call, as pairs of a name and a text.
    pub fn options(&self) -> (options: &Vec<(String, String)>)
        ensures
            *options == self.fields(),
    {
        &self.options
    }

    /// Whether the call may go out at once or has to wait for a token of
    /// the shared limiter.
    pub fn start(&self) -> (start: FetchStart)
        ensures
            start == self.started(),
    {
        self.start
    }

    /// The call has ended: the one entry for the bridge that says how.
    pub fn finished(self, completion: Completion) -> (entry: LuaAsyncCallback)
        ensures
            entry.future == self.call().future(),
            entry.sandbox == self.call().sandbox(),
            entry.completion == completion,
    {
        self.call.complete(completion)
    }

    /// The options that the script gave, as pairs of a name and a text.
    pub closed spec fn fields(&self) -> Vec<(String, String)> {
        self.options
    }
}

} // verus!
