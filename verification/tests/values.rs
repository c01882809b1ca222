use lua_runtime::state::{bootstrap_name, entry_table_name};
use lua_runtime::{
    base_libraries, BaseLibrary, Completion, DelaySeconds, HostError, HostStage, Resolution,
    ResolutionHook, ResolutionRoute, SandboxError, ScriptValue,
};

#[test]
fn finite_delays_from_zero_on_are_accepted() {
    for seconds in [0.0f64, 0.01, 1.0, 2.5, 1e300, f64::MAX, f64::MIN_POSITIVE, 5e-324] {
        let delay = DelaySeconds::from_bits(seconds.to_bits()).unwrap();
        assert_eq!(delay.to_bits(), seconds.to_bits());
        assert_eq!(f64::from_bits(delay.to_bits()), seconds);
    }
}

#[test]
fn negative_zero_is_not_below_zero() {
    let delay = DelaySeconds::from_bits((-0.0f64).to_bits()).unwrap();
    assert_eq!(delay.to_bits(), 0x8000_0000_0000_0000);
    assert_eq!(lua_runtime::delay::NEGATIVE_ZERO_BITS, (-0.0f64).to_bits());
}

#[test]
fn delays_below_zero_are_refused() {
    for seconds in [-1.0f64, -0.01, -5e-324, -f64::MIN_POSITIVE, f64::MIN, -1e300] {
        assert_eq!(
            DelaySeconds::from_bits(seconds.to_bits()).err(),
            Some(SandboxError::InvalidDuration)
        );
    }
}

#[test]
fn delays_that_are_not_finite_are_refused() {
    assert_eq!(lua_runtime::delay::INFINITY_BITS, f64::INFINITY.to_bits());
    let not_finite = [
        f64::INFINITY.to_bits(),
        f64::NEG_INFINITY.to_bits(),
        f64::NAN.to_bits(),
        (-f64::NAN).to_bits(),
        0x7ff0_0000_0000_0001,
        0x7fff_ffff_ffff_ffff,
        0xfff0_0000_0000_0001,
        0xffff_ffff_ffff_ffff,
    ];
    for bits in not_finite {
        assert!(!f64::from_bits(bits).is_finite());
        assert_eq!(DelaySeconds::from_bits(bits).err(), Some(SandboxError::InvalidDuration));
    }
    assert!(DelaySeconds::from_bits(0x7fef_ffff_ffff_ffff).is_ok());
}

#[test]
fn validity_agrees_with_the_comparison_of_numbers() {
    let samples = [
        0u64,
        1,
        0x000f_ffff_ffff_ffff,
        0x0010_0000_0000_0000,
        0x3ff0_0000_0000_0000,
        0x7fef_ffff_ffff_ffff,
        0x7ff0_0000_0000_0000,
        0x7ff8_0000_0000_0000,
        0x8000_0000_0000_0000,
        0x8000_0000_0000_0001,
        0xbff0_0000_0000_0000,
        0xffef_ffff_ffff_ffff,
        0xfff0_0000_0000_0000,
        0xfff8_0000_0000_0000,
    ];
    for bits in samples {
        let seconds = f64::from_bits(bits);
        let valid = seconds.is_finite() && !(seconds < 0.0);
        assert_eq!(DelaySeconds::from_bits(bits).is_ok(), valid);
    }
}

#[test]
fn work_that_succeeded_resolves_with_its_results() {
    let results = vec![ScriptValue::Integer(1), ScriptValue::Text("two".to_string())];
    let plan = Resolution::plan(Completion::Resolved(results.clone()), false);
    assert_eq!(
        plan,
        Resolution {
            route: ResolutionRoute::Direct,
            hook: ResolutionHook::Resolve,
            values: results.clone(),
        }
    );
    let plan = Resolution::plan(Completion::Resolved(results.clone()), true);
    assert_eq!(
        plan,
        Resolution {
            route: ResolutionRoute::ThroughSandbox,
            hook: ResolutionHook::Resolve,
            values: results,
        }
    );
    let plan = Resolution::plan(Completion::Resolved(vec![]), false);
    assert_eq!(plan.values, vec![]);
    assert_eq!(plan.hook, ResolutionHook::Resolve);
}

#[test]
fn work_that_failed_rejects_with_its_message() {
    let plan = Resolution::plan(Completion::Failed("timed out".to_string()), false);
    assert_eq!(
        plan,
        Resolution {
            route: ResolutionRoute::Direct,
            hook: ResolutionHook::Reject,
            values: vec![ScriptValue::Text("timed out".to_string())],
        }
    );
    let plan = Resolution::plan(Completion::Failed(String::new()), true);
    assert_eq!(
        plan,
        Resolution {
            route: ResolutionRoute::ThroughSandbox,
            hook: ResolutionHook::Reject,
            values: vec![ScriptValue::Text(String::new())],
        }
    );
}

#[test]
fn hooks_have_names_and_flags() {
    assert_eq!(ResolutionHook::Resolve.name(), "resolve");
    assert_eq!(ResolutionHook::Reject.name(), "reject");
    assert!(ResolutionHook::Resolve.succeeded());
    assert!(!ResolutionHook::Reject.succeeded());
}

#[test]
fn the_base_libraries_leave_out_the_operating_system() {
    let libraries = base_libraries();
    assert_eq!(
        libraries,
        vec![
            BaseLibrary::Coroutine,
            BaseLibrary::Table,
            BaseLibrary::String,
            BaseLibrary::Utf8,
            BaseLibrary::Math,
            BaseLibrary::Debug,
        ]
    );
    assert!(!libraries.contains(&BaseLibrary::Os));
    assert!(!libraries.contains(&BaseLibrary::Io));
    assert!(!libraries.contains(&BaseLibrary::Package));
}

#[test]
fn entry_points_are_found_by_the_kind_of_runtime() {
    assert_eq!(entry_table_name(true), "sandbox");
    assert_eq!(entry_table_name(false), "bot");
    assert_eq!(bootstrap_name(true), "sandbox.lua");
    assert_eq!(bootstrap_name(false), "bot.lua");
    assert_eq!(lua_runtime::future::async_table_name(), "async");
    assert_eq!(lua_runtime::future::future_constructor_name(), "__RustFuture");
    assert_eq!(lua_runtime::future::ambient_sandbox_name(), "__SANDBOX_STATE");
}

#[test]
fn host_errors_keep_their_stage_and_message() {
    let failure = HostError::new(HostStage::Resolution, "no such future".to_string());
    assert_eq!(failure.stage(), HostStage::Resolution);
    assert_eq!(failure.message(), "no such future");
    assert!(failure.cause().is_none());
    match failure.raise() {
        mlua::Error::RuntimeError(text) => assert_eq!(text, "no such future"),
        other => panic!("expected a runtime error, got {:?}", other),
    }
}

fn outcome_text(outcome: Result<(), HostError>) -> Option<String> {
    outcome.err().map(|failure| failure.message())
}

#[test]
fn the_first_step_that_failed_is_the_failure_of_a_resolution() {
    let ended = HostError::new(HostStage::Resolution, "ending failed".to_string());
    let freed = HostError::new(HostStage::Resolution, "freeing failed".to_string());
    let context = HostError::new(HostStage::Resolution, "context failed".to_string());
    let first_failure = lua_runtime::first_failure;
    assert_eq!(outcome_text(first_failure(Ok(()), Ok(()), Ok(()))), None);
    assert_eq!(
        outcome_text(first_failure(Err(ended.clone()), Err(freed.clone()), Err(context.clone()))),
        Some("ending failed".to_string())
    );
    assert_eq!(
        outcome_text(first_failure(Err(ended.clone()), Ok(()), Ok(()))),
        Some("ending failed".to_string())
    );
    assert_eq!(
        outcome_text(first_failure(Ok(()), Err(freed.clone()), Err(context.clone()))),
        Some("freeing failed".to_string())
    );
    assert_eq!(
        outcome_text(first_failure(Ok(()), Err(freed.clone()), Ok(()))),
        Some("freeing failed".to_string())
    );
    assert_eq!(
        outcome_text(first_failure(Ok(()), Ok(()), Err(context.clone()))),
        Some("context failed".to_string())
    );
}

#[test]
fn entry_points_have_names() {
    assert_eq!(lua_runtime::EntryPoint::Think.name(), "think");
    assert_eq!(lua_runtime::EntryPoint::Run.name(), "run");
    assert_eq!(lua_runtime::EntryPoint::OnCommand.name(), "on_command");
    assert_eq!(lua_runtime::EntryPoint::AsyncCallback.name(), "async_callback");
    assert_eq!(lua_runtime::lib_async::delay_name(), "delay");
}
