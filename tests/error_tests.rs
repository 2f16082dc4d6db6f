use async_error::error::compose_message;
use async_error::AsyncError;

fn text(e: &AsyncError<String>) -> String {
    e.render(e.inner_error())
}

#[test]
fn new_has_no_context() {
    let e = AsyncError::new("boom".to_string());
    assert_eq!(e.context(), None);
    assert_eq!(e.inner_error(), "boom");
    assert_eq!(text(&e), "boom");
}

#[test]
fn non_blank_context_prefixes_error() {
    let e = AsyncError::new("file not found".to_string()).with_context("loading config".to_string());
    assert_eq!(e.context(), Some("loading config"));
    assert_eq!(text(&e), "loading config: file not found");
}

#[test]
fn blank_context_renders_as_none() {
    let plain = AsyncError::new("oops".to_string());
    let blank = AsyncError::new("oops".to_string()).with_context("  \t ".to_string());
    let empty = AsyncError::new("oops".to_string()).with_context(String::new());
    assert_eq!(text(&blank), text(&plain));
    assert_eq!(text(&empty), text(&plain));
    assert_eq!(blank.context(), Some("  \t "));
}

#[test]
fn context_with_inner_spaces_is_kept_whole() {
    let e = AsyncError::new("x".to_string()).with_context("  a b ".to_string());
    assert_eq!(text(&e), "  a b : x");
}

#[test]
fn later_context_replaces_earlier() {
    let e = AsyncError::new("x".to_string())
        .with_context("first".to_string())
        .with_context("second".to_string());
    assert_eq!(text(&e), "second: x");
}

#[test]
fn hooks_right_taken_once() {
    let e = AsyncError::new("x".to_string());
    assert!(e.invoke_hooks_once());
    for _ in 0..10 {
        assert!(!e.invoke_hooks_once());
    }
}

#[test]
fn hooks_right_survives_context() {
    let e = AsyncError::new("x".to_string());
    assert!(e.invoke_hooks_once());
    let e = e.with_context("ctx".to_string());
    assert!(!e.invoke_hooks_once());
}

#[test]
fn compose_message_cases() {
    assert_eq!(compose_message(Some("ctx"), false, "err"), "ctx: err");
    assert_eq!(compose_message(Some("ctx"), true, "err"), "err");
    assert_eq!(compose_message(None, false, "err"), "err");
    assert_eq!(compose_message(Some(""), false, ""), ": ");
}

#[test]
fn unicode_whitespace_context_is_blank() {
    let e = AsyncError::new("x".to_string()).with_context("\u{3000}\u{85}\u{2028}".to_string());
    assert_eq!(text(&e), "x");
}

#[test]
fn zero_width_space_is_not_blank() {
    let e = AsyncError::new("x".to_string()).with_context("\u{200b}".to_string());
    assert_eq!(text(&e), "\u{200b}: x");
}
