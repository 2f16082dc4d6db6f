use async_error::future_ext::{AndThenAsync, AndThenAsyncState, Progress, WithContext};
use std::cell::Cell;

#[test]
fn with_context_success_never_calls_context() {
    let calls = Cell::new(0u32);
    let mut w = WithContext::new((), |e: &String| {
        calls.set(calls.get() + 1);
        format!("while {}", e)
    });
    let out = w.on_inner(Progress::Ready(Ok::<i32, String>(7)));
    assert!(matches!(out, Progress::Ready(Ok(7))));
    assert_eq!(calls.get(), 0);
}

#[test]
fn with_context_pending_keeps_context() {
    let calls = Cell::new(0u32);
    let mut w = WithContext::new((), |e: &String| {
        calls.set(calls.get() + 1);
        format!("while {}", e)
    });
    let out = w.on_inner(Progress::<Result<i32, String>>::Pending);
    assert!(matches!(out, Progress::Pending));
    assert_eq!(calls.get(), 0);
    let out = w.on_inner(Progress::Ready(Err::<i32, String>("disk".to_string())));
    assert_eq!(calls.get(), 1);
    match out {
        Progress::Ready(Err(e)) => {
            assert_eq!(e.inner_error(), "disk");
            assert_eq!(e.context(), Some("while disk"));
            assert_eq!(e.render(e.inner_error()), "while disk: disk");
        }
        _ => panic!("expected a wrapped failure"),
    }
}

#[test]
fn with_context_failure_consumes_context() {
    let mut w = WithContext::new((), |_: &String| "ctx".to_string());
    assert!(w.has_context());
    let out = w.on_inner(Progress::Ready(Ok::<i32, String>(1)));
    assert!(matches!(out, Progress::Ready(Ok(1))));
    assert!(w.has_context());
    let out = w.on_inner(Progress::Ready(Err::<i32, String>("a".to_string())));
    assert!(!w.has_context());
    match out {
        Progress::Ready(Err(e)) => assert_eq!(e.render(e.inner_error()), "ctx: a"),
        _ => panic!("expected a wrapped failure"),
    }
}

#[test]
fn chain_success_doubles() {
    let mut chain = AndThenAsync::new(Ok::<i32, String>(5), |v: i32| Ok::<i32, String>(v * 2));
    let first = match &chain.state {
        AndThenAsyncState::First(op, _) => op.clone(),
        _ => panic!("chain should start on its first operation"),
    };
    assert_eq!(chain.on_first_ready::<i32, i32, String>(first), None);
    let second = match &chain.state {
        AndThenAsyncState::Second(op) => op.clone(),
        _ => panic!("chain should be on its second operation"),
    };
    assert!(!chain.is_done());
    assert_eq!(chain.on_second_ready(second), Ok(10));
    assert!(chain.is_done());
}

#[test]
fn chain_failure_skips_continuation() {
    let calls = Cell::new(0u32);
    let mut chain = AndThenAsync::new((), |v: i32| {
        calls.set(calls.get() + 1);
        Ok::<i32, String>(v * 2)
    });
    let r = chain.on_first_ready::<i32, i32, String>(Err("X".to_string()));
    assert_eq!(r, Some(Err("X".to_string())));
    assert_eq!(calls.get(), 0);
    assert!(chain.is_done());
}

#[test]
fn chain_second_failure_passes_through() {
    let mut chain = AndThenAsync::new((), |v: i32| v + 1);
    assert_eq!(chain.on_first_ready::<i32, i32, String>(Ok(1)), None);
    match &chain.state {
        AndThenAsyncState::Second(n) => assert_eq!(*n, 2),
        _ => panic!("chain should be on its second operation"),
    }
    assert_eq!(chain.on_second_ready::<i32, String>(Err("late".to_string())), Err("late".to_string()));
    assert!(chain.is_done());
}
