use tauri_shim::manager::AppInner;
use tauri_shim::window::{window_from_header, window_from_query, Window, WindowRegistry};

#[test]
fn window_label_defaults_to_main() {
    assert_eq!(window_from_header(None), "main");
    assert_eq!(window_from_header(Some("")), "main");
    assert_eq!(window_from_query(None), "main");
}

#[test]
fn window_label_from_header() {
    assert_eq!(window_from_header(Some("settings")), "settings");
    assert_eq!(window_from_query(Some("popup".into())), "popup");
    assert_eq!(window_from_query(Some(String::new())), "");
}

#[test]
fn webview_windows_registry_grows_with_clients() {
    let mut core: AppInner<(), ()> = AppInner::new();
    let before = core.webview_windows();
    assert_eq!(before, vec!["main".to_string()]);
    let req = core.prepare_invoke("whoami".into(), b"{}", Some("popup"), ()).unwrap();
    assert_eq!(req.window_label(), "popup");
    let mut labels = core.webview_windows();
    labels.sort();
    assert_eq!(labels, vec!["main".to_string(), "popup".to_string()]);
    // A known label is remembered once.
    core.prepare_invoke("whoami".into(), b"", Some("popup"), ()).unwrap();
    assert_eq!(core.webview_windows().len(), 2);
}

#[test]
fn registry_lookup() {
    let mut r = WindowRegistry::new();
    assert!(r.contains("main"));
    assert_eq!(r.get("main"), Some("main".to_string()));
    assert_eq!(r.get("other"), None);
    assert!(r.register("other"));
    assert!(!r.register("other"));
    assert_eq!(r.labels().len(), 2);
}

#[test]
fn window_stub_methods_are_no_ops() {
    let core: AppInner<(), ()> = AppInner::new();
    let label = core.get_webview_window("main").unwrap();
    let w = Window::new(7u8, label);
    assert_eq!(w.label(), "main");
    assert_eq!(*w.handle(), 7);
    assert!(w.set_title("doesn't matter").is_ok());
    assert!(w.show().is_ok());
    assert!(w.hide_window().is_ok());
    assert!(w.close().is_ok());
    assert!(w.is_focused().unwrap());
    assert!(w.is_visible().unwrap());
    assert!(!w.is_minimized().unwrap());
    assert!(!w.is_maximized().unwrap());
    assert!(core.get_webview_window("nope").is_none());
}
