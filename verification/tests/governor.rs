use crossbeam::channel::Receiver;
use lua_runtime::{
    FetchRequest, FetchStart, HttpRateLimiter, Outbox, QuotaKind, SandboxError, SandboxLimits,
    SandboxMsg, SandboxStateInner, SandboxTerminationReason,
};

fn fresh_context() -> (SandboxStateInner, Receiver<SandboxMsg>, Receiver<FetchRequest>) {
    let (fetches, fetch_requests) = Outbox::open();
    let (sender, receiver) = Outbox::open();
    (SandboxStateInner::new(fetches, sender, HttpRateLimiter::new()), receiver, fetch_requests)
}

#[test]
fn fresh_limits_are_the_defaults() {
    let limits = SandboxLimits::new();
    assert_eq!(limits.lines_left(), 10);
    assert_eq!(limits.characters_left(), 2000);
    assert_eq!(limits.http_calls_left(), 2);
    assert_eq!(lua_runtime::limits::DEFAULT_LINES, 10);
    assert_eq!(lua_runtime::limits::DEFAULT_CHARACTERS, 2000);
    assert_eq!(lua_runtime::limits::DEFAULT_HTTP_CALLS, 2);
}

#[test]
fn limits_are_set_one_by_one() {
    let mut limits = SandboxLimits::new();
    limits.set_lines_left(3);
    assert_eq!(limits, SandboxLimits { lines_left: 3, characters_left: 2000, http_calls_left: 2 });
    limits.set_characters_left(7);
    assert_eq!(limits, SandboxLimits { lines_left: 3, characters_left: 7, http_calls_left: 2 });
}

#[test]
fn charge_output_spends_a_line_and_the_characters() {
    let mut limits = SandboxLimits::new();
    assert_eq!(limits.charge_output(5), Ok(()));
    assert_eq!(limits, SandboxLimits { lines_left: 9, characters_left: 1995, http_calls_left: 2 });
    assert_eq!(limits.charge_output(1995), Ok(()));
    assert_eq!(limits, SandboxLimits { lines_left: 8, characters_left: 0, http_calls_left: 2 });
    assert_eq!(limits.charge_output(0), Ok(()));
    assert_eq!(limits, SandboxLimits { lines_left: 7, characters_left: 0, http_calls_left: 2 });
}

#[test]
fn charge_output_refuses_without_spending() {
    let mut limits = SandboxLimits { lines_left: 1, characters_left: 4, http_calls_left: 2 };
    assert_eq!(limits.charge_output(5), Err(QuotaKind::Characters));
    assert_eq!(limits, SandboxLimits { lines_left: 1, characters_left: 4, http_calls_left: 2 });
    assert_eq!(limits.charge_output(usize::MAX), Err(QuotaKind::Characters));
    let mut limits = SandboxLimits { lines_left: 0, characters_left: 4, http_calls_left: 2 };
    assert_eq!(limits.charge_output(1), Err(QuotaKind::Lines));
    assert_eq!(limits.charge_output(5), Err(QuotaKind::Lines));
    assert_eq!(limits, SandboxLimits { lines_left: 0, characters_left: 4, http_calls_left: 2 });
}

#[test]
fn charge_http_call_spends_one_call() {
    let mut limits = SandboxLimits::new();
    assert_eq!(limits.charge_http_call(), Ok(()));
    assert_eq!(limits.http_calls_left(), 1);
    assert_eq!(limits.charge_http_call(), Ok(()));
    assert_eq!(limits.http_calls_left(), 0);
    assert_eq!(limits.charge_http_call(), Err(QuotaKind::HttpCalls));
    assert_eq!(limits, SandboxLimits { lines_left: 10, characters_left: 2000, http_calls_left: 0 });
}

#[test]
fn print_message_counts_characters_not_bytes() {
    let (mut context, _, _) = fresh_context();
    let message = context.print_message("héllo wörld".to_string());
    assert_eq!(message, Ok(SandboxMsg::Out("héllo wörld".to_string())));
    assert_eq!(context.limits.lines_left(), 9);
    assert_eq!(context.limits.characters_left(), 1989);
}

#[test]
fn print_message_refuses_a_text_that_is_too_long() {
    let (mut context, _, _) = fresh_context();
    let long = "x".repeat(2001);
    assert_eq!(
        context.print_message(long),
        Err(SandboxError::QuotaExceeded(QuotaKind::Characters))
    );
    assert_eq!(context.limits, SandboxLimits::new());
    let full = "y".repeat(2000);
    assert_eq!(context.print_message(full.clone()), Ok(SandboxMsg::Out(full)));
    assert_eq!(context.limits.characters_left(), 0);
    assert_eq!(
        context.print_message("z".to_string()),
        Err(SandboxError::QuotaExceeded(QuotaKind::Characters))
    );
    assert_eq!(context.print_message(String::new()), Ok(SandboxMsg::Out(String::new())));
}

#[test]
fn print_sends_ten_lines_and_refuses_the_eleventh() {
    let (mut context, receiver, _) = fresh_context();
    for _ in 0..10 {
        assert_eq!(context.print("a".to_string()), Ok(()));
    }
    let refusal = context.print("b".to_string()).err().unwrap();
    assert_eq!(refusal, SandboxError::QuotaExceeded(QuotaKind::Lines));
    context.error(refusal.message());
    for text in ["c", "", "a longer line"] {
        assert_eq!(
            context.print(text.to_string()),
            Err(SandboxError::QuotaExceeded(QuotaKind::Lines))
        );
    }
    let messages: Vec<SandboxMsg> = receiver.try_iter().collect();
    assert_eq!(messages.len(), 11);
    assert!(messages[..10].iter().all(|message| *message == SandboxMsg::Out("a".to_string())));
    assert_eq!(messages[10], SandboxMsg::Error("output line quota exceeded".to_string()));
    assert_eq!(context.limits.lines_left(), 0);
    assert_eq!(context.limits.characters_left(), 1990);
}

#[test]
fn a_host_that_left_is_no_error_for_the_script() {
    let (mut context, receiver, _) = fresh_context();
    drop(receiver);
    assert_eq!(context.print("into the void".to_string()), Ok(()));
    context.error("nobody hears".to_string());
    assert_eq!(context.terminate("exec"), Ok(()));
    assert_eq!(context.limits.lines_left(), 9);
}

#[test]
fn error_costs_nothing() {
    let (mut context, receiver, _) = fresh_context();
    context.error("bad".to_string());
    assert_eq!(receiver.try_recv(), Ok(SandboxMsg::Error("bad".to_string())));
    assert_eq!(context.limits, SandboxLimits::new());
    assert_eq!(
        SandboxStateInner::error_message("worse".to_string()),
        SandboxMsg::Error("worse".to_string())
    );
}

#[test]
fn terminate_reads_the_reason() {
    let (mut context, receiver, _) = fresh_context();
    assert_eq!(context.terminate("exec"), Ok(()));
    assert_eq!(
        receiver.try_recv(),
        Ok(SandboxMsg::Terminated(SandboxTerminationReason::ExecutionQuota))
    );
    for unknown in ["", "Exec", "exec ", " exec", "quota", "execution"] {
        assert_eq!(
            context.terminate(unknown),
            Err(SandboxError::UnknownTerminationReason(unknown.to_string()))
        );
    }
    assert!(receiver.try_recv().is_err());
    assert_eq!(
        SandboxStateInner::terminate_message("exec"),
        Ok(SandboxMsg::Terminated(SandboxTerminationReason::ExecutionQuota))
    );
}

#[test]
fn termination_reasons_have_names() {
    assert_eq!(
        SandboxTerminationReason::parse("exec"),
        Some(SandboxTerminationReason::ExecutionQuota)
    );
    assert_eq!(SandboxTerminationReason::parse("exe"), None);
    assert_eq!(SandboxTerminationReason::ExecutionQuota.name(), "exec");
    assert!(SandboxMsg::Terminated(SandboxTerminationReason::ExecutionQuota).is_terminal());
    assert!(!SandboxMsg::Out("exec".to_string()).is_terminal());
    assert!(!SandboxMsg::Error("exec".to_string()).is_terminal());
}

#[test]
fn instructions_run_is_kept() {
    let (mut context, _, _) = fresh_context();
    assert_eq!(context.get_instructions_run(), 0);
    context.set_instructions_run(u64::MAX);
    assert_eq!(context.get_instructions_run(), u64::MAX);
    assert_eq!(context.limits, SandboxLimits::new());
}

#[test]
fn admit_fetch_follows_the_token() {
    let (mut context, _, _) = fresh_context();
    assert_eq!(context.admit_fetch(true), Ok(FetchStart::Immediate));
    assert_eq!(context.limits.http_calls_left(), 1);
    assert_eq!(context.admit_fetch(false), Ok(FetchStart::AfterAdmission));
    assert_eq!(context.limits.http_calls_left(), 0);
}

#[test]
fn spent_calls_are_refused_whatever_the_limiter_says() {
    let (mut context, _, _) = fresh_context();
    context.limits = SandboxLimits { lines_left: 10, characters_left: 2000, http_calls_left: 0 };
    for token_at_hand in [true, false, true, true, false] {
        assert_eq!(
            context.admit_fetch(token_at_hand),
            Err(SandboxError::QuotaExceeded(QuotaKind::HttpCalls))
        );
        assert_eq!(context.limits.http_calls_left(), 0);
    }
    for _ in 0..3 {
        assert_eq!(
            context.start_fetch(),
            Err(SandboxError::QuotaExceeded(QuotaKind::HttpCalls))
        );
    }
    assert!(context.http_rate_limiter.try_acquire());
}

#[test]
fn start_fetch_asks_the_shared_limiter() {
    let limiter = HttpRateLimiter::with_rate(1).unwrap();
    let (fetches, _fetch_requests) = Outbox::<FetchRequest>::open();
    let (sender, _receiver) = Outbox::<SandboxMsg>::open();
    let mut context = SandboxStateInner::new(fetches, sender, limiter.share());
    assert_eq!(context.start_fetch(), Ok(FetchStart::Immediate));
    assert_eq!(context.start_fetch(), Ok(FetchStart::AfterAdmission));
    assert_eq!(
        context.start_fetch(),
        Err(SandboxError::QuotaExceeded(QuotaKind::HttpCalls))
    );
    assert!(!limiter.try_acquire());
}

#[test]
fn the_limiter_is_shared_by_its_handles() {
    assert!(HttpRateLimiter::with_rate(0).is_none());
    assert!(HttpRateLimiter::with_rate(u32::MAX).is_some());
    assert_eq!(lua_runtime::limiter::HTTP_CALLS_PER_SECOND, 2);
    let limiter = HttpRateLimiter::new();
    let other = limiter.share();
    assert!(limiter.try_acquire());
    assert!(other.try_acquire());
    assert!(!limiter.try_acquire());
    assert!(!other.try_acquire());
}

#[test]
fn sandbox_errors_have_messages() {
    assert_eq!(
        SandboxError::QuotaExceeded(QuotaKind::Lines).message(),
        "output line quota exceeded"
    );
    assert_eq!(
        SandboxError::QuotaExceeded(QuotaKind::Characters).message(),
        "output character quota exceeded"
    );
    assert_eq!(
        SandboxError::QuotaExceeded(QuotaKind::HttpCalls).message(),
        "http call quota exceeded"
    );
    assert_eq!(
        SandboxError::UnknownTerminationReason("bored".to_string()).message(),
        "unknown termination reason: \"bored\""
    );
    assert_eq!(SandboxError::InvalidDuration.message(), "Invalid duration");
    assert!(SandboxError::QuotaExceeded(QuotaKind::Lines).is_quota());
    assert!(!SandboxError::InvalidDuration.is_quota());
    assert!(!SandboxError::UnknownTerminationReason(String::new()).is_quota());
}

#[test]
fn an_outbox_feeds_the_queue_it_was_opened_with() {
    let (mut outbox, receiver) = Outbox::<u32>::open();
    let mut shared = outbox.share();
    assert!(outbox.send(1));
    assert!(shared.send(2));
    assert!(outbox.sender().send(3).is_ok());
    assert!(outbox.sender().same_channel(&shared.sender()));
    assert_eq!(receiver.try_iter().collect::<Vec<u32>>(), vec![1, 2, 3]);
    drop(receiver);
    assert!(!outbox.send(4));
    assert!(!shared.send(5));
    let (other, _kept) = Outbox::<u32>::open();
    assert!(!other.sender().same_channel(&outbox.sender()));
}

#[test]
fn sandbox_errors_are_raised_as_runtime_errors() {
    let raised = SandboxError::QuotaExceeded(QuotaKind::Lines).raise();
    match raised {
        mlua::Error::RuntimeError(text) => assert_eq!(text, "output line quota exceeded"),
        other => panic!("expected a runtime error, got {:?}", other),
    }
    let raised = SandboxError::InvalidDuration.raise();
    match raised {
        mlua::Error::RuntimeError(text) => assert_eq!(text, "Invalid duration"),
        other => panic!("expected a runtime error, got {:?}", other),
    }
}
