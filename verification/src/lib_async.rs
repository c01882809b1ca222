//! The `async` library of the scripts: `async.delay`.

use crossbeam::channel::Receiver;
use vstd::prelude::*;

use crate::channel::Outbox;
use crate::delay::{encodes_valid_delay, DelaySeconds};
use crate::error::{HostError, HostStage, SandboxErrorView};
use crate::future::{async_table_name, handed_over, host_error, PendingCall, TimerRequest};
use crate::lua::{create_table, globals, lua_runtime_error, table_set, table_value};

verus! {

/// The field of the async library under which `async.delay` stands.
pub fn delay_name() -> (name: &'static str)
    ensures
        name@ == "delay"@,
{
    "delay"
}

/// `mlua::Lua::create_function_mut`: a function for the scripts that takes
/// a number of seconds and calls `async_delay` on its IEEE 754 encoding, as
/// a value.
#[verifier::external_body]
fn delay_function(state: &mlua::Lua, timers: Outbox<TimerRequest>) -> (function: Result<
    mlua::Value,
    mlua::Error,
>) {
    let mut timers = timers;
    state.create_function_mut(
        move |lua, seconds: mlua::Number| async_delay(lua, &mut timers, seconds.to_bits()),
    ).map(mlua::Value::Function)
}

/// True if `now` holds one timer request more than `before`, at its end: a
/// request to wait the number of seconds that `seconds_bits` encodes.
pub open spec fn scheduled_once(
    now: Seq<TimerRequest>,
    before: Seq<TimerRequest>,
    seconds_bits: u64,
) -> bool {
    &&& now.len() == before.len() + 1
    &&& now.drop_last() == before
    &&& now.last().seconds() == seconds_bits
}

/// `async.delay`, as the script calls it with the number of seconds that
/// `seconds_bits` encodes. A delay that is below zero or not finite is
/// refused at once with the error `Invalid duration`: no future is made and
/// nothing is handed to `timers`. For any other delay a future is made and
/// exactly one timer request is handed to `timers`; the future is the
/// script's answer, as `handed_over` says. Where no future could be made,
/// nothing is handed over.
pub fn async_delay(state: &mlua::Lua, timers: &mut Outbox<TimerRequest>, seconds_bits: u64) -> (answer:
    Result<mlua::Value, mlua::Error>)
    ensures
        final(timers).end() == old(timers).end(),
        !encodes_valid_delay(seconds_bits) ==> answer == Err::<mlua::Value, mlua::Error>(
            lua_runtime_error(SandboxErrorView::InvalidDuration.message()),
        ) && final(timers).offered() == old(timers).offered(),
        answer is Ok ==> scheduled_once(
            final(timers).offered(),
            old(timers).offered(),
            seconds_bits,
        ),
        final(timers).offered() == old(timers).offered() || scheduled_once(
            final(timers).offered(),
            old(timers).offered(),
            seconds_bits,
        ),
{
    let delay = match DelaySeconds::from_bits(seconds_bits) {
        Ok(delay) => delay,
        Err(refusal) => return Err(refusal.raise()),
    };
    let (call, future) = match PendingCall::begin(state) {
        Ok(begun) => begun,
        Err(failure) => return Err(failure.raise()),
    };
    let taken = timers.send(TimerRequest::new(call, delay));
    assert(timers.offered().drop_last() =~= old(timers).offered());
    handed_over(taken, table_value(&future), "no timer is running")
}

/// Registers the `async` library: a global table `async` whose `delay`
/// hands its timer requests to a queue that is opened here. The answer is
/// the receiving end of that queue, for the native side. A failure is one
/// of the `Bootstrap` stage.
pub fn lib_async(state: &mlua::Lua) -> (registered: Result<Receiver<TimerRequest>, HostError>)
    ensures
        registered matches Err(failure) ==> failure.is_raised(HostStage::Bootstrap),
{
    let (timers, requests) = Outbox::<TimerRequest>::open();
    let library = match create_table(state) {
        Ok(library) => library,
        Err(error) => return Err(host_error(HostStage::Bootstrap, error)),
    };
    let delay = match delay_function(state, timers) {
        Ok(delay) => delay,
        Err(error) => return Err(host_error(HostStage::Bootstrap, error)),
    };
    match table_set(&library, delay_name(), delay) {
        Ok(()) => {},
        Err(error) => return Err(host_error(HostStage::Bootstrap, error)),
    }
    match table_set(&globals(state), async_table_name(), table_value(&library)) {
        Ok(()) => Ok(requests),
        Err(error) => Err(host_error(HostStage::Bootstrap, error)),
    }
}

} // verus!
