use grust::callback::{
    callback_result_flag, dispatch_repeatable, CallbackAction, CallbackEvent, CallbackLifecycle,
    CallbackResult, CallbackShape, OnceCallback,
};
use grust::types::{FALSE, TRUE};
use std::cell::Cell;

#[test]
fn result_flags_follow_foreign_convention() {
    assert_eq!(callback_result_flag(CallbackResult::Remove), FALSE);
    assert_eq!(callback_result_flag(CallbackResult::Continue), TRUE);
    assert_eq!(FALSE, 0);
    assert_ne!(TRUE, 0);
}

#[test]
fn repeatable_closure_keeps_its_state_between_dispatches() {
    let mut count = 0;
    let mut closure = move || {
        count += 1;
        if count < 3 {
            CallbackResult::Continue
        } else {
            CallbackResult::Remove
        }
    };
    let mut flags = Vec::new();
    loop {
        let flag = dispatch_repeatable(&mut closure);
        flags.push(flag);
        if flag == FALSE {
            break;
        }
    }
    assert_eq!(flags, vec![TRUE, TRUE, FALSE]);
}

#[test]
fn once_callback_runs_its_body_once() {
    let runs = Cell::new(0);
    let mut holder = OnceCallback::new(|| runs.set(runs.get() + 1));
    assert!(holder.is_pending());
    assert_eq!(holder.fire(), FALSE);
    assert!(!holder.is_pending());
    assert_eq!(runs.get(), 1);
}

#[test]
fn one_shot_lifecycle_ignores_later_dispatches() {
    let mut s = CallbackLifecycle::new(CallbackShape::OneShot);
    let e = CallbackEvent::Dispatch(CallbackResult::Continue);
    assert_eq!(s.step(e), CallbackAction::Release);
    assert_eq!(s.step(e), CallbackAction::Ignore);
    assert_eq!(s.step(e), CallbackAction::Ignore);
    assert_eq!(s.step(CallbackEvent::Destroy), CallbackAction::Ignore);
    assert_eq!(s.runs, 1);
    assert!(!s.is_scheduled());
}

#[test]
fn continue_four_times_then_remove_fires_five_times() {
    let mut s = CallbackLifecycle::new(CallbackShape::Repeatable);
    let mut releases = 0;
    for _ in 0..4 {
        let a = s.step(CallbackEvent::Dispatch(CallbackResult::Continue));
        assert_eq!(a, CallbackAction::Keep);
        assert!(s.is_scheduled());
    }
    if s.step(CallbackEvent::Dispatch(CallbackResult::Remove)) == CallbackAction::Release {
        releases += 1;
    }
    if s.step(CallbackEvent::Destroy) == CallbackAction::Release {
        releases += 1;
    }
    assert_eq!(s.runs, 5);
    assert_eq!(releases, 1);
}

#[test]
fn idle_source_counting_callback_runs_three_times() {
    let mut count = 0;
    let mut closure = || {
        count += 1;
        if count <= 2 {
            CallbackResult::Continue
        } else {
            CallbackResult::Remove
        }
    };
    let mut s = CallbackLifecycle::new(CallbackShape::Repeatable);
    while s.is_scheduled() {
        let flag = dispatch_repeatable(&mut closure);
        let r = if flag == FALSE {
            CallbackResult::Remove
        } else {
            CallbackResult::Continue
        };
        s.step(CallbackEvent::Dispatch(r));
    }
    assert_eq!(count, 3);
    assert_eq!(s.runs, 3);
    assert!(!s.is_scheduled());
}

#[test]
fn destroy_before_dispatch_releases_without_running() {
    let mut s = CallbackLifecycle::new(CallbackShape::OneShot);
    assert_eq!(s.step(CallbackEvent::Destroy), CallbackAction::Release);
    assert_eq!(
        s.step(CallbackEvent::Dispatch(CallbackResult::Continue)),
        CallbackAction::Ignore
    );
    assert_eq!(s.runs, 0);
}
