//! Host side of an embedded Lua runtime: a bridge that brings finished native
//! work back onto the interpreter's single thread, and the quotas under which
//! untrusted scripts run.

pub mod cache;
pub mod channel;
pub mod delay;
pub mod error;
pub mod future;
pub mod lib_async;
pub mod lib_sandbox;
pub mod limiter;
pub mod limits;
pub mod lua;
pub mod message;
pub mod sandbox;
pub mod settings;
pub mod state;
pub mod text;
pub mod value;

pub use channel::Outbox;
pub use delay::DelaySeconds;
pub use error::{HostError, HostStage, SandboxError, SandboxErrorView};
pub use future::{
    create_future, FetchRequest, FutureHandle, LuaAsyncCallback, PendingCall, SandboxState,
    TimerRequest,
};
pub use limiter::HttpRateLimiter;
pub use limits::{QuotaKind, SandboxLimits};
pub use message::{SandboxMsg, SandboxMsgView, SandboxTerminationReason};
pub use lib_async::{async_delay, lib_async};
pub use sandbox::{FetchStart, SandboxStateInner};
pub use settings::{
    Setting, SettingBoolParameters, SettingContext, SettingError, SettingErrorView, SettingFlags,
    SettingStringParameters, SettingType, SettingValue,
};
pub use state::{
    base_libraries, first_failure, BaseLibrary, Drained, EntryPoint, LuaState, MEMORY_LIMIT,
};
pub use value::{
    Completion, CompletionView, Resolution, ResolutionHook, ResolutionRoute, ResolutionView,
    ScriptValue, ScriptValueView,
};
