//! IPC types shared between the HTTP endpoints and command wrappers: the
//! decoded command request, the error a command reports, and the reply the
//! invoke endpoint sends.

use vstd::prelude::*;

use crate::json::{JsonValue, json_get, json_parse, parse_json, same_json};
use crate::window::Window;

verus! {

/// `s` followed by `t`.
pub fn concat(s: &str, t: &str) -> (r: String)
    ensures
        r@ == s@ + t@,
{
    let mut r = s.to_owned();
    r.append(t);
    r
}

/// An error returned from a command handler. Its JSON value is the body of
/// the reply: `422 Unprocessable Entity` for an error the command reports,
/// `500 Internal Server Error` for a failure of the shim itself (a result
/// that does not serialize, a handler that panicked).
#[derive(Debug)]
pub struct InvokeError {
    value: JsonValue,
    internal: bool,
}

/// `v` is the JSON string `msg`.
pub open spec fn is_message(v: JsonValue, msg: Seq<char>) -> bool {
    match v {
        JsonValue::String(m) => m@ == msg,
        _ => false,
    }
}

/// `v` is the body of the error for the unknown command `name`:
/// `{"command": name, "kind": "not_found"}`, members in key order.
pub open spec fn is_not_found(v: JsonValue, name: Seq<char>) -> bool {
    match v {
        JsonValue::Object(entries) => {
            &&& entries@.len() == 2
            &&& entries@[0].0@ == "command"@
            &&& is_message(entries@[0].1, name)
            &&& entries@[1].0@ == "kind"@
            &&& is_message(entries@[1].1, "not_found"@)
        },
        _ => false,
    }
}

impl Clone for InvokeError {
    fn clone(&self) -> (r: InvokeError)
        ensures
            same_json(self.value(), r.value()),
            r.internal_view() == self.internal_view(),
    {
        InvokeError { value: self.value.clone(), internal: self.internal }
    }
}

impl InvokeError {
    /// The JSON value this error carries.
    pub closed spec fn value(&self) -> JsonValue {
        self.value
    }

    /// Whether this is a failure of the shim rather than an error the
    /// command reports.
    pub closed spec fn internal_view(&self) -> bool {
        self.internal
    }

    /// An error the command reports, carrying `value`.
    pub fn new(value: JsonValue) -> (r: InvokeError)
        ensures
            r.value() == value,
            !r.internal_view(),
    {
        InvokeError { value, internal: false }
    }

    /// A failure of the shim itself, carrying `value`.
    pub fn internal(value: JsonValue) -> (r: InvokeError)
        ensures
            r.value() == value,
            r.internal_view(),
    {
        InvokeError { value, internal: true }
    }

    /// Whether this is a failure of the shim rather than an error the
    /// command reports.
    pub fn is_internal(&self) -> (r: bool)
        ensures
            r == self.internal_view(),
    {
        self.internal
    }

    /// An error whose body is the JSON string `msg`.
    pub fn from_message(msg: String) -> (r: InvokeError)
        ensures
            r.value() == JsonValue::String(msg),
            !r.internal_view(),
    {
        InvokeError::new(JsonValue::String(msg))
    }

    /// The error for a command name no handler knows.
    pub fn not_found(name: String) -> (r: InvokeError)
        ensures
            is_not_found(r.value(), name@),
            !r.internal_view(),
    {
        proof {
            reveal_strlit("command");
            reveal_strlit("kind");
            reveal_strlit("not_found");
        }
        let mut entries: Vec<(String, JsonValue)> = Vec::new();
        entries.push(("command".to_owned(), JsonValue::String(name)));
        entries.push(("kind".to_owned(), JsonValue::String("not_found".to_owned())));
        InvokeError::new(JsonValue::Object(entries))
    }

    pub fn into_value(self) -> (r: JsonValue)
        ensures
            r == self.value(),
    {
        self.value
    }

    pub fn as_value(&self) -> (r: &JsonValue)
        ensures
            *r == self.value(),
    {
        &self.value
    }
}

/// The message for a command argument absent from the request body.
pub open spec fn missing_argument_message(key: Seq<char>) -> Seq<char> {
    "missing argument `"@ + key + "`"@
}

/// The message for a command argument present but of the wrong shape.
pub open spec fn invalid_argument_message(key: Seq<char>, detail: Seq<char>) -> Seq<char> {
    "invalid argument `"@ + key + "`: "@ + detail
}

/// The error for a command argument absent from the request body.
pub fn missing_argument(key: &str) -> (r: InvokeError)
    ensures
        is_message(r.value(), missing_argument_message(key@)),
{
    let m = concat("missing argument `", key);
    let m = concat(m.as_str(), "`");
    InvokeError::from_message(m)
}

/// The error for a command argument that does not decode as its parameter's
/// type; `detail` is the decoder's message.
pub fn invalid_argument(key: &str, detail: &str) -> (r: InvokeError)
    ensures
        is_message(r.value(), invalid_argument_message(key@, detail@)),
{
    let m = concat("invalid argument `", key);
    let m = concat(m.as_str(), "`: ");
    let m = concat(m.as_str(), detail);
    InvokeError::from_message(m)
}

/// The failure for a command result that does not serialize: a failure of
/// the shim, answered `500`.
pub fn unserializable_result(detail: &str) -> (r: InvokeError)
    ensures
        is_message(r.value(), "failed to serialize return value: "@ + detail@),
        r.internal_view(),
{
    InvokeError::internal(JsonValue::String(concat("failed to serialize return value: ", detail)))
}

/// The failure for a command error value that does not serialize: a failure
/// of the shim, answered `500`.
pub fn unserializable_error(detail: &str) -> (r: InvokeError)
    ensures
        is_message(r.value(), "failed to serialize error value: "@ + detail@),
        r.internal_view(),
{
    InvokeError::internal(JsonValue::String(concat("failed to serialize error value: ", detail)))
}

/// The message for a command whose handler panicked.
pub open spec fn panicked_message(name: Seq<char>) -> Seq<char> {
    "command `"@ + name + "` panicked"@
}

/// The failure for a command whose handler panicked: a failure of the shim,
/// answered `500`.
pub fn handler_panicked(name: &str) -> (r: InvokeError)
    ensures
        is_message(r.value(), panicked_message(name@)),
        r.internal_view(),
{
    let m = concat("command `", name);
    let m = concat(m.as_str(), "` panicked");
    InvokeError::internal(JsonValue::String(m))
}

/// The message for a command that asks for state of a type nobody manages.
pub open spec fn not_managed_message(ty: Seq<char>) -> Seq<char> {
    "state of type `"@ + ty + "` is not managed"@
}

/// The text saying that state of type `ty` is not managed.
pub fn not_managed_text(ty: &str) -> (r: String)
    ensures
        r@ == not_managed_message(ty@),
{
    let m = concat("state of type `", ty);
    concat(m.as_str(), "` is not managed")
}

/// The error for a command parameter asking for state that is not managed:
/// an error the command reports, answered `422`.
pub fn state_not_managed(ty: &str) -> (r: InvokeError)
    ensures
        is_message(r.value(), not_managed_message(ty@)),
        !r.internal_view(),
{
    InvokeError::from_message(not_managed_text(ty))
}

/// What a command's return value is answered with when it is taken whole,
/// given what serializing it gave: the value, or, when it did not
/// serialize, the shim's failure.
pub fn plain_outcome(serialized: Result<JsonValue, String>) -> (r: Result<JsonValue, InvokeError>)
    ensures
        match (serialized, r) {
            (Ok(v), Ok(w)) => v == w,
            (Err(d), Err(e)) => e.internal_view() && is_message(
                e.value(),
                "failed to serialize return value: "@ + d@,
            ),
            _ => false,
        },
{
    match serialized {
        Ok(v) => Ok(v),
        Err(d) => Err(unserializable_result(d.as_str())),
    }
}

/// What a command that declares a `Result` return is answered with, given
/// which variant it returned and what serializing its content gave: an
/// `Ok` value is the answer; an `Err` value is the error the command
/// reports; content that did not serialize is the shim's failure.
pub fn result_outcome(serialized: Result<Result<JsonValue, String>, Result<JsonValue, String>>) -> (r:
    Result<JsonValue, InvokeError>)
    ensures
        match (serialized, r) {
            (Ok(Ok(v)), Ok(w)) => v == w,
            (Ok(Err(d)), Err(e)) => e.internal_view() && is_message(
                e.value(),
                "failed to serialize return value: "@ + d@,
            ),
            (Err(Ok(v)), Err(e)) => !e.internal_view() && e.value() == v,
            (Err(Err(d)), Err(e)) => e.internal_view() && is_message(
                e.value(),
                "failed to serialize error value: "@ + d@,
            ),
            _ => false,
        },
{
    match serialized {
        Ok(Ok(v)) => Ok(v),
        Ok(Err(d)) => Err(unserializable_result(d.as_str())),
        Err(Ok(v)) => Err(InvokeError::new(v)),
        Err(Err(d)) => Err(unserializable_error(d.as_str())),
    }
}

/// A single decoded `POST /__tauri/invoke/{cmd}` request, as seen by the
/// command handlers. `H` is the app handle handed to commands that ask for
/// one.
#[derive(Debug)]
pub struct CommandRequest<H> {
    name: String,
    body: JsonValue,
    app_handle: H,
    window_label: String,
}

impl<H: Clone> Clone for CommandRequest<H> {
    fn clone(&self) -> (r: CommandRequest<H>)
        ensures
            r.name_view() == self.name_view(),
            same_json(self.body_view(), r.body_view()),
            cloned(self.handle_view(), r.handle_view()),
            r.window_label_view() == self.window_label_view(),
    {
        CommandRequest {
            name: self.name.clone(),
            body: self.body.clone(),
            app_handle: self.app_handle.clone(),
            window_label: self.window_label.clone(),
        }
    }
}

impl<H> CommandRequest<H> {
    pub closed spec fn name_view(&self) -> Seq<char> {
        self.name@
    }

    pub closed spec fn body_view(&self) -> JsonValue {
        self.body
    }

    pub closed spec fn handle_view(&self) -> H {
        self.app_handle
    }

    pub closed spec fn window_label_view(&self) -> Seq<char> {
        self.window_label@
    }

    pub fn new(name: String, body: JsonValue, app_handle: H, window_label: String) -> (r:
        CommandRequest<H>)
        ensures
            r.name_view() == name@,
            r.body_view() == body,
            r.handle_view() == app_handle,
            r.window_label_view() == window_label@,
    {
        CommandRequest { name, body, app_handle, window_label }
    }

    pub fn name(&self) -> (r: &str)
        ensures
            r@ == self.name_view(),
    {
        self.name.as_str()
    }

    pub fn body(&self) -> (r: &JsonValue)
        ensures
            *r == self.body_view(),
    {
        &self.body
    }

    pub fn app_handle(&self) -> (r: &H)
        ensures
            *r == self.handle_view(),
    {
        &self.app_handle
    }

    pub fn window_label(&self) -> (r: &str)
        ensures
            r@ == self.window_label_view(),
    {
        self.window_label.as_str()
    }

    /// Owned [`Window`] for the calling client.
    pub fn window(&self) -> (r: Window<H>) where H: Clone
        ensures
            r.label_view() == self.window_label_view(),
            cloned(self.handle_view(), r.handle_view()),
    {
        Window::new(self.app_handle.clone(), self.window_label.clone())
    }

    /// The body member a command parameter reads, under its JSON key; an
    /// absent member is the "missing argument" error.
    pub fn argument(&self, key: &str) -> (r: Result<&JsonValue, InvokeError>)
        ensures
            match r {
                Ok(v) => json_get(self.body_view(), key@) == Some(*v),
                Err(e) => json_get(self.body_view(), key@) is None && is_message(
                    e.value(),
                    missing_argument_message(key@),
                ),
            },
    {
        match self.body.get(key) {
            Some(v) => Ok(v),
            None => Err(missing_argument(key)),
        }
    }
}

/// An HTTP status with its JSON body.
#[derive(Debug, PartialEq)]
pub struct Reply {
    pub status: u16,
    pub body: JsonValue,
}

pub const STATUS_OK: u16 = 200;

pub const STATUS_BAD_REQUEST: u16 = 400;

pub const STATUS_UNPROCESSABLE: u16 = 422;

pub const STATUS_INTERNAL: u16 = 500;

/// The message for an invoke body that is not JSON.
pub open spec fn invalid_body_message(detail: Seq<char>) -> Seq<char> {
    "invalid JSON body: "@ + detail
}

/// What a parsed non-empty invoke body gives: the value, or, when it did not
/// parse, the "invalid JSON body" error carrying the parser's message.
pub fn body_from_parse(parsed: Result<JsonValue, String>) -> (r: Result<JsonValue, InvokeError>)
    ensures
        match (parsed, r) {
            (Ok(v), Ok(w)) => v == w,
            (Err(d), Err(e)) => is_message(e.value(), invalid_body_message(d@)) && !e.internal_view(),
            _ => false,
        },
{
    match parsed {
        Ok(v) => Ok(v),
        Err(detail) => Err(InvokeError::from_message(concat("invalid JSON body: ", detail.as_str()))),
    }
}

/// What the arguments of a command invocation decode to: an empty body is
/// `null`; otherwise the body must parse as JSON, and a parse failure is the
/// "invalid JSON body" error carrying the parser's message.
pub fn decode_invoke_body(body: &[u8]) -> (r: Result<JsonValue, InvokeError>)
    ensures
        body@.len() == 0 ==> r == Ok::<JsonValue, InvokeError>(JsonValue::Null),
        body@.len() > 0 ==> match (json_parse(body@), r) {
            (Ok(v), Ok(w)) => v == w,
            (Err(d), Err(e)) => is_message(e.value(), invalid_body_message(d)),
            _ => false,
        },
{
    if body.len() == 0 {
        return Ok(JsonValue::Null);
    }
    body_from_parse(parse_json(body))
}

/// The reply to a command outcome: `200` with the value; for an error, its
/// value with `422` when the command reported it and `500` when the shim
/// failed (serialization, panic).
pub fn invoke_reply(outcome: Result<JsonValue, InvokeError>) -> (r: Reply)
    ensures
        match outcome {
            Ok(v) => r.status == STATUS_OK && r.body == v,
            Err(e) => r.body == e.value() && r.status == (if e.internal_view() {
                STATUS_INTERNAL
            } else {
                STATUS_UNPROCESSABLE
            }),
        },
{
    match outcome {
        Ok(v) => Reply { status: STATUS_OK, body: v },
        Err(e) => {
            let status = if e.is_internal() {
                STATUS_INTERNAL
            } else {
                STATUS_UNPROCESSABLE
            };
            Reply { status, body: e.into_value() }
        },
    }
}

/// A request refused before it reaches the app, with a plain-text reason.
#[derive(Debug)]
pub struct Rejection {
    pub status: u16,
    pub message: String,
}

/// The message for an emit body that does not decode.
pub open spec fn invalid_emit_message(detail: Seq<char>) -> Seq<char> {
    "invalid emit body: "@ + detail
}

/// `POST /__tauri/emit`'s body check, given what decoding the body gave: an
/// empty body is refused `400` "empty emit body"; a body that did not decode
/// is refused `400` with the decoder's message; otherwise the decoded body.
pub fn accept_emit_body<T>(body: &[u8], decoded: Result<T, String>) -> (r: Result<T, Rejection>)
    ensures
        body@.len() == 0 ==> (r matches Err(j) && j.status == STATUS_BAD_REQUEST && j.message@
            == "empty emit body"@),
        body@.len() > 0 ==> match (decoded, r) {
            (Ok(v), Ok(w)) => v == w,
            (Err(d), Err(j)) => j.status == STATUS_BAD_REQUEST && j.message@
                == invalid_emit_message(d@),
            _ => false,
        },
{
    if body.len() == 0 {
        return Err(Rejection { status: STATUS_BAD_REQUEST, message: "empty emit body".to_owned() });
    }
    match decoded {
        Ok(v) => Ok(v),
        Err(d) => Err(
            Rejection {
                status: STATUS_BAD_REQUEST,
                message: concat("invalid emit body: ", d.as_str()),
            },
        ),
    }
}

/// The reply to an invoke request whose body is not JSON: `400` with the
/// error's value.
pub fn bad_request_reply(err: InvokeError) -> (r: Reply)
    ensures
        r.status == STATUS_BAD_REQUEST,
        r.body == err.value(),
{
    Reply { status: STATUS_BAD_REQUEST, body: err.into_value() }
}

} // verus!
