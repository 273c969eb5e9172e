use tauri_shim::ipc::{
    accept_emit_body, bad_request_reply, body_from_parse, decode_invoke_body, handler_panicked,
    invalid_argument, invoke_reply, missing_argument, not_managed_text, plain_outcome,
    result_outcome, state_not_managed, unserializable_error, unserializable_result,
    CommandRequest, InvokeError,
};
use tauri_shim::json::JsonValue;
use tauri_shim::manager::AppInner;
use tauri_shim::naming::{return_type_of, returns_result, snake_to_camel, ReturnType};

fn s(x: &str) -> JsonValue {
    JsonValue::String(x.to_string())
}

fn message(e: &InvokeError) -> String {
    match e.as_value() {
        JsonValue::String(m) => m.clone(),
        other => panic!("not a message: {other:?}"),
    }
}

#[test]
fn missing_argument_is_a_422() {
    let req = CommandRequest::new("greet".into(), JsonValue::Object(vec![]), (), "main".into());
    let err = req.argument("name").unwrap_err();
    let m = message(&err);
    assert!(m.contains("missing argument"), "got: {m}");
    assert!(m.contains("name"), "got: {m}");
    assert_eq!(m, "missing argument `name`");
    let reply = invoke_reply(Err(err));
    assert_eq!(reply.status, 422);
}

#[test]
fn argument_lookup_finds_the_member() {
    let body = JsonValue::Object(vec![
        ("left".into(), JsonValue::Number("2".into())),
        ("right".into(), JsonValue::Number("3".into())),
    ]);
    let req = CommandRequest::new("add".into(), body, 0u8, "main".into());
    assert_eq!(req.argument("right").unwrap(), &JsonValue::Number("3".into()));
    assert_eq!(req.argument("left").unwrap(), &JsonValue::Number("2".into()));
    assert_eq!(req.name(), "add");
    assert_eq!(req.window().label(), "main");
    // A null body (empty request) has no members.
    let empty = CommandRequest::new("add".into(), JsonValue::Null, 0u8, "main".into());
    assert!(empty.argument("left").is_err());
}

#[test]
fn unknown_command_is_a_422() {
    let err = InvokeError::not_found("nope".into());
    let v = err.into_value();
    assert_eq!(v.get("kind"), Some(&s("not_found")));
    assert_eq!(v.get("command"), Some(&s("nope")));
    assert_eq!(invoke_reply(Err(InvokeError::new(v))).status, 422);
}

#[test]
fn invalid_json_body_is_a_400() {
    let err = decode_invoke_body(b"not json").unwrap_err();
    assert!(message(&err).starts_with("invalid JSON body: "));
    let reply = bad_request_reply(err);
    assert_eq!(reply.status, 400);
    let mut core: AppInner<(), ()> = AppInner::new();
    let r = core.prepare_invoke("greet".into(), b"not json", Some("late"), ());
    assert_eq!(r.unwrap_err().status, 400);
    assert!(core.get_webview_window("late").is_none());
}

#[test]
fn bodies_decode_to_json() {
    assert_eq!(decode_invoke_body(b"").unwrap(), JsonValue::Null);
    let v = decode_invoke_body(br#"{"name":"world","n":[1,2.5,true,null]}"#).unwrap();
    assert_eq!(v.get("name"), Some(&s("world")));
    assert_eq!(
        v.get("n"),
        Some(&JsonValue::Array(vec![
            JsonValue::Number("1".into()),
            JsonValue::Number("2.5".into()),
            JsonValue::Bool(true),
            JsonValue::Null,
        ]))
    );
}

/// A number argument as the command's `f64` parameter.
fn f64_arg(req: &CommandRequest<()>, key: &str) -> Result<f64, InvokeError> {
    match req.argument(key)? {
        JsonValue::Number(text) => {
            text.parse::<f64>().map_err(|e| invalid_argument(key, &e.to_string()))
        }
        other => Err(invalid_argument(key, &format!("expected f64, got {other:?}"))),
    }
}

/// The `divide` command: `Result<f64, String>`, its error a JSON string.
fn divide(req: &CommandRequest<()>) -> Result<JsonValue, InvokeError> {
    let left = f64_arg(req, &snake_to_camel("left"))?;
    let right = f64_arg(req, &snake_to_camel("right"))?;
    if right == 0.0 {
        Err(InvokeError::new(s("divide by zero")))
    } else {
        let text = serde_json::to_string(&(left / right)).unwrap();
        Ok(decode_invoke_body(text.as_bytes()).unwrap())
    }
}

fn run_divide(body: &[u8]) -> tauri_shim::ipc::Reply {
    let mut core: AppInner<(), ()> = AppInner::new();
    let req = core.prepare_invoke("divide".into(), body, None, ()).unwrap();
    assert_eq!(req.name(), "divide");
    invoke_reply(divide(&req))
}

#[test]
fn result_ok_is_200_with_inner_value() {
    let r = run_divide(br#"{"left": 10.0, "right": 4.0}"#);
    assert_eq!(r.status, 200);
    assert_eq!(r.body, JsonValue::Number("2.5".into()));
}

#[test]
fn result_err_is_422_with_error_value() {
    let r = run_divide(br#"{"left": 1.0, "right": 0.0}"#);
    assert_eq!(r.status, 422);
    assert_eq!(r.body, s("divide by zero"));
}

#[test]
fn failures_of_the_shim_are_500() {
    let r = invoke_reply(Err(unserializable_result("key must be a string")));
    assert_eq!(r.status, 500);
    assert_eq!(r.body, s("failed to serialize return value: key must be a string"));
    let r = invoke_reply(Err(unserializable_error("boom")));
    assert_eq!(r.status, 500);
    let err = handler_panicked("explode");
    assert!(err.is_internal());
    assert_eq!(message(&err), "command `explode` panicked");
    assert_eq!(invoke_reply(Err(err)).status, 500);
    assert!(!InvokeError::from_message("x".into()).is_internal());
    assert_eq!(invoke_reply(Err(InvokeError::internal(JsonValue::Null))).status, 500);
}

#[test]
fn parse_outcomes_become_bodies_or_errors() {
    assert_eq!(body_from_parse(Ok(JsonValue::Bool(true))).unwrap(), JsonValue::Bool(true));
    let err = body_from_parse(Err("EOF while parsing".into())).unwrap_err();
    assert_eq!(message(&err), "invalid JSON body: EOF while parsing");
    assert!(!err.is_internal());
    assert_eq!(bad_request_reply(err).status, 400);
}

#[test]
fn error_messages() {
    assert_eq!(message(&missing_argument("byCount")), "missing argument `byCount`");
    assert_eq!(message(&invalid_argument("left", "expected f64")), "invalid argument `left`: expected f64");
    assert_eq!(message(&unserializable_result("boom")), "failed to serialize return value: boom");
    assert_eq!(message(&unserializable_error("boom")), "failed to serialize error value: boom");
}

#[test]
fn multiword_params_use_camelcase_keys() {
    assert_eq!(snake_to_camel("by_count"), "byCount");
    assert_eq!(snake_to_camel("idempotency_key"), "idempotencyKey");
    assert_eq!(snake_to_camel("name"), "name");
    assert_eq!(snake_to_camel("a__b_"), "aB");
    assert_eq!(snake_to_camel("_x"), "X");
    assert_eq!(snake_to_camel("straße_ß"), "straßeSS");

    // `add_units(by_count: i64, idempotency_key: String)` reads its
    // arguments under the camelCase keys.
    let mut core: AppInner<i64, ()> = AppInner::new();
    core.manage(1, 0);
    let req = core
        .prepare_invoke("add_units".into(), br#"{"byCount": 5, "idempotencyKey": "k1"}"#, None, ())
        .unwrap();
    let by_count = match req.argument(&snake_to_camel("by_count")).unwrap() {
        JsonValue::Number(n) => n.parse::<i64>().unwrap(),
        other => panic!("by_count: {other:?}"),
    };
    assert_eq!(req.argument(&snake_to_camel("idempotency_key")).unwrap(), &s("k1"));
    assert!(req.argument("by_count").is_err());
    let total = core.try_state(1).copied().unwrap() + by_count;
    let reply = invoke_reply(Ok(JsonValue::Number(total.to_string())));
    assert_eq!(reply.status, 200);
    assert_eq!(reply.body, JsonValue::Number("5".into()));
}

#[test]
fn camel_keys_are_idempotent_on_ascii() {
    for name in ["by_count", "idempotency_key", "a__b_", "_x", "name", "byCount", "x_1_y"] {
        let once = snake_to_camel(name);
        assert_eq!(snake_to_camel(&once), once, "{name}");
    }
}

#[test]
fn result_return_types_are_recognised() {
    assert!(returns_result(&ReturnType::Path(vec!["Result".into()])));
    assert!(returns_result(&ReturnType::Path(vec!["std".into(), "result".into(), "Result".into()])));
    assert!(!returns_result(&ReturnType::Path(vec!["String".into()])));
    assert!(!returns_result(&ReturnType::Path(vec![])));
    assert!(!returns_result(&ReturnType::Default));
    assert!(!returns_result(&ReturnType::Other));
}

#[test]
fn camel_keys_hold_no_underscore_and_are_fixed() {
    for name in ["by_count", "straße_ß", "_ä_ö_", "ǆ_ǆ", "x__", "日本_語"] {
        let once = snake_to_camel(name);
        assert!(!once.contains('_'), "{name} -> {once}");
        assert_eq!(snake_to_camel(&once), once, "{name}");
    }
}

fn path(segments: &[&str]) -> Vec<String> {
    segments.iter().map(|s| s.to_string()).collect()
}

#[test]
fn return_type_text_gives_its_shape() {
    assert!(matches!(return_type_of(""), ReturnType::Default));
    match return_type_of("Result<f64, String>") {
        ReturnType::Path(p) => assert_eq!(p, path(&["Result"])),
        other => panic!("{other:?}"),
    }
    match return_type_of("std::result::Result<UserView, StructuredErr>") {
        ReturnType::Path(p) => assert_eq!(p, path(&["std", "result", "Result"])),
        other => panic!("{other:?}"),
    }
    match return_type_of("::core::result::Result<(), String>") {
        ReturnType::Path(p) => assert_eq!(p, path(&["core", "result", "Result"])),
        other => panic!("{other:?}"),
    }
    match return_type_of("i64") {
        ReturnType::Path(p) => assert_eq!(p, path(&["i64"])),
        other => panic!("{other:?}"),
    }
    assert!(matches!(return_type_of("()"), ReturnType::Other));
    assert!(matches!(return_type_of("&'static str"), ReturnType::Other));
    assert!(matches!(return_type_of("(Result<u8, u8>, u8)"), ReturnType::Other));
    assert!(returns_result(&return_type_of("Result<f64, String>")));
    assert!(!returns_result(&return_type_of("Option<Result<u8, u8>>")));
    assert!(!returns_result(&return_type_of("")));
}

#[test]
fn outcomes_of_serialized_returns() {
    assert_eq!(plain_outcome(Ok(s("x"))).unwrap(), s("x"));
    let e = plain_outcome(Err("boom".into())).unwrap_err();
    assert!(e.is_internal());
    assert_eq!(message(&e), "failed to serialize return value: boom");
    assert_eq!(result_outcome(Ok(Ok(JsonValue::Number("2.5".into())))).unwrap(), JsonValue::Number("2.5".into()));
    let e = result_outcome(Err(Ok(s("divide by zero")))).unwrap_err();
    assert!(!e.is_internal());
    assert_eq!(invoke_reply(Err(e)).status, 422);
    let e = result_outcome(Ok(Err("bad".into()))).unwrap_err();
    assert_eq!(invoke_reply(Err(e)).status, 500);
    let e = result_outcome(Err(Err("worse".into()))).unwrap_err();
    assert_eq!(message(&e), "failed to serialize error value: worse");
    assert_eq!(invoke_reply(Err(e)).status, 500);
}

#[test]
fn unmanaged_state_is_a_422() {
    let e = state_not_managed("app::Greeting");
    assert_eq!(message(&e), "state of type `app::Greeting` is not managed");
    assert!(message(&e).contains("not managed"));
    assert_eq!(invoke_reply(Err(e)).status, 422);
    assert_eq!(not_managed_text("u8"), "state of type `u8` is not managed");
}

#[test]
fn emit_bodies_are_checked() {
    let r = accept_emit_body::<u8>(b"", Err("EOF".into())).unwrap_err();
    assert_eq!((r.status, r.message.as_str()), (400, "empty emit body"));
    let r = accept_emit_body::<u8>(b"{", Err("EOF while parsing".into())).unwrap_err();
    assert_eq!((r.status, r.message.as_str()), (400, "invalid emit body: EOF while parsing"));
    assert_eq!(accept_emit_body(b"{}", Ok(7u8)).unwrap(), 7);
}

#[test]
fn clones_keep_the_value() {
    let v = JsonValue::Object(vec![
        ("a".into(), JsonValue::Array(vec![JsonValue::Null, JsonValue::Bool(false)])),
        ("b".into(), JsonValue::Number("-1e3".into())),
    ]);
    assert_eq!(v.clone(), v);
    let e = InvokeError::new(v.clone());
    let c = e.clone();
    assert_eq!(c.as_value(), e.as_value());
    assert_eq!(c.is_internal(), e.is_internal());
    assert_eq!(c.into_value(), v);
}
