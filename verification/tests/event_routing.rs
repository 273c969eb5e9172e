use tauri_shim::event::{event_matches_listener, EventIdCounter, EventTarget};

fn labelled(kind: &str, label: &str) -> EventTarget {
    let label = label.to_string();
    match kind {
        "AnyLabel" => EventTarget::AnyLabel { label },
        "Window" => EventTarget::Window { label },
        "Webview" => EventTarget::Webview { label },
        _ => EventTarget::WebviewWindow { label },
    }
}

#[test]
fn any_target_reaches_every_listener() {
    let listeners = vec![
        EventTarget::Any,
        EventTarget::App,
        labelled("AnyLabel", "main"),
        labelled("Window", "main"),
        labelled("Webview", "x"),
        labelled("WebviewWindow", "popup"),
    ];
    for l in &listeners {
        assert!(event_matches_listener(&EventTarget::Any, l), "{l:?}");
    }
}

#[test]
fn any_listener_ignores_any_label_events() {
    assert!(!event_matches_listener(&labelled("AnyLabel", "popup"), &EventTarget::Any));
    assert!(!event_matches_listener(&EventTarget::App, &EventTarget::Any));
    assert!(!event_matches_listener(&labelled("Window", "main"), &EventTarget::Any));
}

#[test]
fn app_listener_hears_any_and_app_only() {
    assert!(event_matches_listener(&EventTarget::App, &EventTarget::App));
    assert!(!event_matches_listener(&labelled("AnyLabel", "main"), &EventTarget::App));
}

#[test]
fn labelled_events_route_by_label_across_kinds() {
    let target = labelled("AnyLabel", "settings");
    assert!(event_matches_listener(&target, &labelled("WebviewWindow", "settings")));
    assert!(event_matches_listener(&target, &labelled("Window", "settings")));
    assert!(!event_matches_listener(&target, &labelled("WebviewWindow", "main")));
    assert!(!event_matches_listener(&EventTarget::App, &labelled("WebviewWindow", "main")));
    assert!(event_matches_listener(&labelled("Window", "a"), &labelled("Webview", "a")));
}

#[test]
fn label_extractor() {
    assert_eq!(labelled("Window", "w").label(), Some("w"));
    assert_eq!(labelled("AnyLabel", "q").label(), Some("q"));
    assert_eq!(EventTarget::Any.label(), None);
    assert_eq!(EventTarget::App.label(), None);
}

#[test]
fn string_converts_to_any_label() {
    let t: EventTarget = String::from("popup").into();
    assert_eq!(t, labelled("AnyLabel", "popup"));
    assert_eq!(EventTarget::any_label("x".to_string()), labelled("AnyLabel", "x"));
}

#[test]
fn clone_keeps_the_target() {
    let t = labelled("Webview", "v");
    assert_eq!(t.clone(), t);
}

#[test]
fn event_ids_count_up_from_one() {
    let mut c = EventIdCounter::new();
    assert_eq!(c.take(), 1);
    assert_eq!(c.take(), 2);
    assert_eq!(c.take(), 3);
}

#[test]
fn successive_ids_are_distinct_and_count_up() {
    let mut c = EventIdCounter::new();
    let ids: Vec<u32> = (0..1000).map(|_| c.take()).collect();
    let expected: Vec<u32> = (1..=1000).collect();
    assert_eq!(ids, expected);
    assert!(ids.windows(2).all(|w| w[0] < w[1]));
}
