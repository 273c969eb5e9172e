# tauri_shim

A debug shim that runs a Tauri-style application as an ordinary HTTP server:
commands are invoked with `POST /__tauri/invoke/{name}`, and events flow to
the browser over Server-Sent Events on `/__tauri/events` and back with
`POST /__tauri/emit`.

## Layout

- `src/` — the verified library (Verus):
  - `event.rs` — `EventTarget`, the routing rule (`event_matches_listener`,
    including the `AnyLabel` quirk of tauri#11561), event ids, envelopes.
  - `listener.rs` — the backend listener registry: which listeners an event
    reaches, `once` retirement, `unlisten`.
  - `state.rs` — managed state keyed by type, and the `State` handle.
  - `window.rs` — window labels, the window registry, `Window` stubs.
  - `manager.rs` — `AppInner`, the app's shared state, with every decision
    the endpoints and handles make on it (emit, frontend emit, subscribe,
    prepare an invoke), and `App`.
  - `ipc.rs` — `CommandRequest`, `InvokeError`, replies and their statuses:
    `200` for a value, `422` for an error the command returns, `500` for a
    failure of the shim (a value that does not serialize, a handler that
    panicked), `400` for a body that is not JSON.
  - `json.rs` — the JSON value model and body parsing.
  - `naming.rs` — parameter keys (snake_case to camelCase, or as written
    under `rename_all = "snake_case"`) and `Result` return detection.
  - `config.rs` — bind host and port.
  - `build_stub.rs` — the no-op build-script helpers.
- `tests/` — tests of the library.
- `app/` — the HTTP server (axum), the lock-protected `AppHandle`, the
  `Manager` / `Emitter` / `Listener` traits, the `command!` and
  `generate_handler!` macros, and the serde copies of library types.

A command is declared with `command!`, optionally preceded by
`rename_all = "snake_case",` and `async,` (run a plain `fn` on the blocking
pool):

```rust
command! { fn divide(left: f64, right: f64) -> Result<f64, String> {
    if right == 0.0 { Err("divide by zero".into()) } else { Ok(left / right) }
} }
```
