use myall::webview::{WebViewError, WebViewHandle, WebViewManager, PREWARM_WEBVIEW_ID};

#[test]
fn manager_hands_out_increasing_ids_from_one() {
    let mut m: WebViewManager<u32> = WebViewManager::new();
    assert_eq!(m.next_id(), 1);
    assert_eq!(m.next_id(), 2);
    assert_eq!(m.next_id(), 3);
    assert_ne!(PREWARM_WEBVIEW_ID, 1);
    assert_eq!(PREWARM_WEBVIEW_ID, 0);
}

#[test]
fn new_manager_has_no_active_view() {
    let m: WebViewManager<u32> = WebViewManager::new();
    assert!(!m.is_active());
    assert!(m.get().is_none());
    assert_eq!(m.active_webview(), Err(WebViewError::NoActive));
    assert_eq!(WebViewError::NoActive.message(), "No active WebView");
}

#[test]
fn set_makes_the_handle_active() {
    let mut m: WebViewManager<u32> = WebViewManager::new();
    m.set(WebViewHandle::new(1, 77));
    assert!(m.is_active());
    assert_eq!(m.get().map(|h| h.id), Some(1));
    assert_eq!(m.active_webview(), Ok(&77));
    m.set(WebViewHandle::new(5, 88));
    assert_eq!(m.get().map(|h| h.id), Some(5));
    assert_eq!(m.active_webview(), Ok(&88));
    // Setting a handle does not move the counter.
    assert_eq!(m.next_id(), 1);
}

#[test]
fn closed_handle_refuses_operations() {
    let mut h = WebViewHandle::new(4, String::from("view"));
    assert!(h.is_available());
    assert_eq!(h.webview().map(|s| s.as_str()), Ok("view"));
    h.close();
    assert!(!h.is_available());
    assert_eq!(h.id, 4);
    assert_eq!(h.webview().err(), Some(WebViewError::Closed));
    assert_eq!(WebViewError::Closed.message(), "WebView is closed");
    h.close();
    assert!(!h.is_available());
}

#[test]
fn manager_reports_a_closed_active_view() {
    let mut m: WebViewManager<u32> = WebViewManager::new();
    let mut h = WebViewHandle::new(1, 3);
    h.close();
    m.set(h);
    assert!(m.is_active());
    assert_eq!(m.active_webview(), Err(WebViewError::Closed));
}
