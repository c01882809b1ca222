//! The capabilities of a sandboxed run, as the scripts call them on the
//! context object.

use mlua::UserDataMethods;
use vstd::prelude::*;

use crate::error::SandboxErrorView;
use crate::future::SandboxState;
use crate::limits::{QuotaKind, SandboxLimits};
use crate::lua::lua_runtime_error;
use crate::message::{SandboxMsg, SandboxTerminationReason};
use crate::sandbox::SandboxStateInner;

verus! {

/// `mlua::Lua::register_userdata_type`: gives the context objects of this
/// interpreter their methods. Each method is one of the functions below.
#[verifier::external_body]
pub(crate) fn register_context_type(state: &mlua::Lua) -> (done: Result<(), mlua::Error>) {
    state.register_userdata_type::<SandboxStateInner>(|methods| {
        methods.add_method_mut("print", |_, this, text: String| print(this, text));
        methods.add_method_mut("error", |_, this, text: String| error(this, text));
        methods.add_method_mut("set_instructions_run", |_, this, n: u64| set_steps(this, n));
        methods.add_method("get_instructions_run", |_, this, _: ()| get_steps(this));
        methods.add_function("set_state", |lua, this: mlua::Value| set_state(lua, this));
        methods.add_method_mut("http_fetch", |lua, this, call: (String, mlua::Table)| {
            http_fetch(lua, this, call.0, call.1)
        });
        methods.add_method_mut("terminate", |_, this, text: String| terminate(this, text));
    })
}

/// `mlua::Lua::create_any_userdata`: moves `context` into the interpreter's
/// heap and hands back the object that holds it, as a value.
#[verifier::external_body]
pub(crate) fn context_object(state: &mlua::Lua, context: SandboxStateInner) -> (object: Result<
    mlua::Value,
    mlua::Error,
>) {
    state.create_any_userdata(context).map(mlua::Value::UserData)
}

/// `mlua::AnyUserData::borrow` on `mlua::Value::as_userdata`: the budgets
/// and the step count of the context that `object` holds, as they stand
/// now. There is none where `object` holds no context, and none while the
/// context is lent to a capability.
#[verifier::external_body]
pub(crate) fn context_reading(object: &mlua::Value) -> (reading: Option<(SandboxLimits, u64)>) {
    let held = object.as_userdata()?.borrow::<SandboxStateInner>().ok()?;
    Some((held.limits, held.instructions_run))
}

/// `mlua::Table::pairs`, collected: the fields of `table` as pairs of a
/// name and a text, in the order in which the interpreter walks the table.
/// Numbers among the keys and values are written as texts. It fails where a
/// key or a value is neither a text nor a number.
#[verifier::external_body]
fn text_fields(table: &mlua::Table) -> (fields: Result<Vec<(String, String)>, mlua::Error>) {
    table.pairs::<String, String>().collect()
}

/// `context:print(value)`. The script gets the quota error of the budget
/// that does not allow the line, and no error where the budgets allow it.
pub fn print(context: &mut SandboxStateInner, value: String) -> (answer: Result<(), mlua::Error>)
    ensures
        match old(context).limits.output_refusal(value@.len()) {
            None => answer is Ok,
            Some(kind) => answer == Err::<(), mlua::Error>(
                lua_runtime_error(SandboxErrorView::QuotaExceeded(kind).message()),
            ),
        },
        final(context).limits == SandboxStateInner::limits_after_print(
            old(context).limits,
            value@,
        ),
        final(context).said() == SandboxStateInner::said_after_print(
            old(context).said(),
            old(context).limits,
            value,
        ),
        final(context).asked() == old(context).asked(),
        final(context).same_run(*old(context)),
{
    match context.print(value) {
        Ok(()) => Ok(()),
        Err(refusal) => Err(refusal.raise()),
    }
}

/// `context:error(value)`: sends the `Error` message. It never fails.
pub fn error(context: &mut SandboxStateInner, value: String) -> (answer: Result<(), mlua::Error>)
    ensures
        answer is Ok,
        final(context).said() == old(context).said().push(SandboxMsg::Error(value)),
        final(context).asked() == old(context).asked(),
        final(context).limits == old(context).limits,
        final(context).same_run(*old(context)),
{
    context.error(value);
    Ok(())
}

/// `context:set_instructions_run(value)`. It never fails.
pub fn set_steps(context: &mut SandboxStateInner, value: u64) -> (answer: Result<(), mlua::Error>)
    ensures
        answer is Ok,
        final(context).instructions_run == value,
        final(context).limits == old(context).limits,
{
    context.set_instructions_run(value);
    Ok(())
}

/// `context:get_instructions_run()`. It never fails.
pub fn get_steps(context: &SandboxStateInner) -> (answer: Result<u64, mlua::Error>)
    ensures
        answer matches Ok(steps) && steps == context.instructions_run,
{
    Ok(context.get_instructions_run())
}

/// `context:set_state()`: makes the context the current sandbox again,
/// after another run was current. The interpreter hands the context in.
pub(crate) fn set_state(state: &mlua::Lua, context: mlua::Value) -> (answer: Result<
    (),
    mlua::Error,
>) {
    match SandboxState::install(state, context) {
        Ok(()) => Ok(()),
        Err(failure) => Err(failure.raise()),
    }
}

/// `context:http_fetch(url, options)`, where `options` is a table of texts
/// that the interpreter hands in. The call is paid for first: the script
/// gets the quota error where the run has no outbound call left, before the
/// options are read or anything else is done.
pub(crate) fn http_fetch(
    state: &mlua::Lua,
    context: &mut SandboxStateInner,
    url: String,
    options: mlua::Table,
) -> (answer: Result<mlua::Value, mlua::Error>)
    ensures
        old(context).limits.http_calls_left == 0 ==> answer == Err::<mlua::Value, mlua::Error>(
            lua_runtime_error(SandboxErrorView::QuotaExceeded(QuotaKind::HttpCalls).message()),
        ) && final(context).asked() == old(context).asked(),
        final(context).asked().len() <= old(context).asked().len() + 1,
        final(context).said() == old(context).said(),
        final(context).limits == SandboxStateInner::limits_after_fetch(old(context).limits),
        final(context).same_run(*old(context)),
{
    let start = match context.start_fetch() {
        Ok(start) => start,
        Err(refusal) => return Err(refusal.raise()),
    };
    match text_fields(&options) {
        Ok(fields) => context.request_fetch(state, url, fields, start),
        Err(error) => Err(error),
    }
}

/// `context:terminate(value)`. The script gets an error where `value`
/// names no reason, and only then: the error that says so and repeats the
/// value.
pub fn terminate(context: &mut SandboxStateInner, value: String) -> (answer: Result<
    (),
    mlua::Error,
>)
    ensures
        match SandboxTerminationReason::named_by(value@) {
            Some(_) => answer is Ok,
            None => answer == Err::<(), mlua::Error>(
                lua_runtime_error(SandboxErrorView::UnknownTerminationReason(value@).message()),
            ),
        },
        final(context).said() == SandboxStateInner::said_after_terminate(
            old(context).said(),
            value@,
        ),
        final(context).asked() == old(context).asked(),
        final(context).limits == old(context).limits,
        final(context).same_run(*old(context)),
{
    match context.terminate(value.as_str()) {
        Ok(()) => Ok(()),
        Err(refusal) => Err(refusal.raise()),
    }
}

} // verus!
