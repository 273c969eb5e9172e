use tauri_shim::event::{event_matches_listener as delivers, EventEnvelope, EventTarget};
use tauri_shim::json::JsonValue;
use tauri_shim::manager::AppInner;

type Core = AppInner<u32, &'static str>;

/// What the dispatch task does with one envelope: the handlers it calls.
fn dispatch(core: &mut Core, env: &EventEnvelope) -> Vec<&'static str> {
    let due = core.due(&env.event, &env.target);
    let handlers: Vec<&'static str> = due.iter().filter_map(|id| core.handler(*id).copied()).collect();
    core.retire_once(&due);
    handlers
}

fn setup() -> (Core, u32) {
    let mut core = Core::new();
    let ping = core.listen("ping".into(), EventTarget::App, false, "ping");
    core.listen("hello".into(), EventTarget::Any, false, "hello");
    core.listen("once-only".into(), EventTarget::App, true, "once");
    (core, ping)
}

fn text(s: &str) -> JsonValue {
    JsonValue::String(s.to_string())
}

#[test]
fn frontend_emit_reaches_backend_listener() {
    let (mut core, _) = setup();
    let env = core.frontend_emit(None, "ping".into(), Some(text("from-js")), None);
    assert_eq!(dispatch(&mut core, &env), vec!["ping"]);
    assert_eq!(env.payload, text("from-js"));
    assert_eq!(env.target, EventTarget::Any);
    assert_eq!(env.source, EventTarget::WebviewWindow { label: "main".into() });
}

#[test]
fn backend_emit_reaches_backend_listener() {
    let (mut core, _) = setup();
    let env = core.emit("ping".into(), text("from-rust"));
    assert_eq!(env.source, EventTarget::App);
    assert_eq!(env.target, EventTarget::Any);
    assert_eq!(dispatch(&mut core, &env), vec!["ping"]);
}

#[test]
fn once_listener_fires_exactly_once() {
    let (mut core, _) = setup();
    let mut hits = 0;
    for i in 0..3 {
        let env = core.frontend_emit(None, "once-only".into(), Some(JsonValue::Number(i.to_string())), None);
        hits += dispatch(&mut core, &env).iter().filter(|h| **h == "once").count();
    }
    assert_eq!(hits, 1);
}

#[test]
fn listen_any_picks_up_labelled_emit() {
    let (mut core, _) = setup();
    let labelled = core.frontend_emit(
        None,
        "hello".into(),
        Some(text("labelled")),
        Some(EventTarget::AnyLabel { label: "popup".into() }),
    );
    assert!(dispatch(&mut core, &labelled).is_empty());
    let broadcast = core.frontend_emit(None, "hello".into(), Some(text("broadcast")), None);
    assert_eq!(dispatch(&mut core, &broadcast), vec!["hello"]);
}

#[test]
fn unlisten_removes_the_handler() {
    let (mut core, ping) = setup();
    let first = core.frontend_emit(None, "ping".into(), Some(text("first")), None);
    assert_eq!(dispatch(&mut core, &first), vec!["ping"]);
    assert!(core.unlisten(ping));
    assert!(!core.unlisten(ping));
    let second = core.frontend_emit(None, "ping".into(), Some(text("second")), None);
    assert!(dispatch(&mut core, &second).is_empty());
}

#[test]
fn missing_payload_is_null_and_ids_advance() {
    let (mut core, _) = setup();
    let a = core.frontend_emit(Some("popup"), "x".into(), None, None);
    let b = core.emit("y".into(), JsonValue::Null);
    assert_eq!(a.payload, JsonValue::Null);
    assert_eq!(a.source, EventTarget::WebviewWindow { label: "popup".into() });
    assert_eq!(b.id, a.id + 1);
    assert!(core.get_webview_window("popup").is_some());
}

#[test]
fn listener_ids_are_distinct() {
    let mut core = Core::new();
    let a = core.listen("a".into(), EventTarget::App, false, "a");
    let b = core.listen("a".into(), EventTarget::App, false, "b");
    assert_ne!(a, b);
    assert_eq!(a, 1);
    let env = core.emit("a".into(), JsonValue::Null);
    assert_eq!(dispatch(&mut core, &env), vec!["a", "b"]);
}

#[test]
fn window_emit_reports_window_source() {
    let mut core = Core::new();
    let env = core.window_emit("main".into(), "wave".into(), JsonValue::Null);
    assert_eq!(env.source, EventTarget::Window { label: "main".into() });
    assert_eq!(env.target, EventTarget::Any);
    let to = core.emit_to(EventTarget::AnyLabel { label: "settings".into() }, "tick".into(), text("hi"));
    assert_eq!(to.source, EventTarget::App);
    assert_eq!(to.target, EventTarget::AnyLabel { label: "settings".into() });
}

#[test]
fn emit_to_label_reaches_only_that_window() {
    let mut core = Core::new();
    let main = core.subscribe(Some("main".into()));
    let settings = core.subscribe(Some("settings".into()));
    let tick = core.emit_to(EventTarget::AnyLabel { label: "settings".into() }, "tick".into(), text("hi"));
    let tock = core.emit_to(EventTarget::AnyLabel { label: "main".into() }, "tock".into(), text("yo"));
    assert!(delivers(&tick.target, &settings) && !delivers(&tick.target, &main));
    assert!(delivers(&tock.target, &main) && !delivers(&tock.target, &settings));
}

#[test]
fn app_emit_reaches_main_window_sse() {
    let mut core = Core::new();
    let main = core.subscribe(None);
    assert_eq!(main, EventTarget::WebviewWindow { label: "main".into() });
    let payload = JsonValue::Object(vec![("v".into(), JsonValue::Number("1".into()))]);
    let env = core.emit("ping".into(), payload.clone());
    assert!(delivers(&env.target, &main));
    assert_eq!(env.event, "ping");
    assert_eq!(env.payload, payload);
    assert_eq!(env.target, EventTarget::Any);
    assert_eq!(env.source, EventTarget::App);
    let ev = env.into_event();
    assert_eq!(ev.event, "ping");
    assert_eq!(ev.payload, payload);
    assert_eq!(ev.source, EventTarget::App);
}
