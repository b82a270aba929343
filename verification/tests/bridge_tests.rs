use winframe::bridge::{Dispatch, WindowHandleBridge};
use winframe::geom::Size2D;
use winframe::window::{Theme, WindowInner, WM_CLOSE, WM_NCDESTROY, WM_PAINT};

fn window_with_handle(hwnd: isize, title: &str) -> WindowInner {
    let mut w = WindowInner::new(
        Size2D { width: 100, height: 100 },
        String::from(title),
        Theme::LightMode,
    );
    w.set_hwnd(hwnd);
    w
}

#[test]
fn register_then_lookup() {
    let mut b = WindowHandleBridge::new();
    assert!(!b.contains(42));
    b.register(window_with_handle(42, "a"));
    assert!(b.contains(42));
    assert!(!b.contains(43));
    let w = b.window(42).expect("window must be associated");
    assert_eq!(w.hwnd(), 42);
    assert_eq!(w.title(), "a");
    assert!(b.window(43).is_none());
}

#[test]
fn unknown_handle_is_forwarded_untouched() {
    let mut b = WindowHandleBridge::new();
    b.register(window_with_handle(42, "a"));
    let d = b.dispatch(99, WM_CLOSE, false);
    assert!(matches!(d, Dispatch::Forwarded));
    // The known window is untouched.
    assert_eq!(b.clear_close_request(42), Some(false));
}

#[test]
fn close_notification_is_consumed_and_sets_flag() {
    // Scenario: the window receives a close notification, then
    // clear_close_request reads true once and false thereafter until
    // another notification arrives.
    let mut b = WindowHandleBridge::new();
    b.register(window_with_handle(42, "a"));
    let d = b.dispatch(42, WM_CLOSE, false);
    assert!(matches!(d, Dispatch::Consumed));
    assert_eq!(b.clear_close_request(42), Some(true));
    assert_eq!(b.clear_close_request(42), Some(false));
    let d2 = b.dispatch(42, WM_CLOSE, false);
    assert!(matches!(d2, Dispatch::Consumed));
    assert_eq!(b.clear_close_request(42), Some(true));
    assert_eq!(b.clear_close_request(42), Some(false));
}

#[test]
fn paint_notification_is_forwarded_and_sets_flag() {
    let mut b = WindowHandleBridge::new();
    b.register(window_with_handle(42, "a"));
    assert_eq!(b.clear_redraw_request(42), Some(true));
    let d = b.dispatch(42, WM_PAINT, false);
    assert!(matches!(d, Dispatch::Forwarded));
    assert_eq!(b.clear_redraw_request(42), Some(true));
    assert_eq!(b.clear_redraw_request(42), Some(false));
}

#[test]
fn input_claimed_message_is_consumed() {
    let mut b = WindowHandleBridge::new();
    b.register(window_with_handle(42, "a"));
    let d = b.dispatch(42, 0x0100, true);
    assert!(matches!(d, Dispatch::Consumed));
    assert_eq!(b.clear_close_request(42), Some(false));
}

#[test]
fn flag_queries_on_unknown_handle_return_none() {
    let mut b = WindowHandleBridge::new();
    assert_eq!(b.clear_close_request(7), None);
    assert_eq!(b.clear_redraw_request(7), None);
}

#[test]
fn destroy_clears_association_exactly_once() {
    // Scenario: a destruction notification clears the stored association
    // exactly once; a repeated destruction notification finds nothing,
    // releases nothing, and is forwarded.
    let mut b = WindowHandleBridge::new();
    b.register(window_with_handle(42, "a"));
    let first = b.dispatch(42, WM_NCDESTROY, false);
    match first {
        Dispatch::Destroyed(w) => {
            // The handed-back window carries its identity, handle nulled.
            assert_eq!(w.title(), "a");
        }
        _ => panic!("first destruction must hand the window back"),
    }
    assert!(!b.contains(42));
    let second = b.dispatch(42, WM_NCDESTROY, false);
    assert!(matches!(second, Dispatch::Forwarded));
    assert!(!b.contains(42));
}

#[test]
fn two_windows_are_routed_independently() {
    let mut b = WindowHandleBridge::new();
    b.register(window_with_handle(1, "first"));
    b.register(window_with_handle(2, "second"));
    b.dispatch(1, WM_CLOSE, false);
    assert_eq!(b.clear_close_request(1), Some(true));
    assert_eq!(b.clear_close_request(2), Some(false));
    let d = b.dispatch(2, WM_NCDESTROY, false);
    assert!(matches!(d, Dispatch::Destroyed(_)));
    assert!(b.contains(1));
    assert!(!b.contains(2));
}
