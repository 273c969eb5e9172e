//! A verified core for a debug shim that serves a Tauri-style application over
//! HTTP: event routing, backend listeners, managed state, the window
//! registry, command requests and replies, and the stubs that keep
//! `tauri`-shaped code compiling.

pub mod build_stub;
pub mod config;
pub mod event;
pub mod ipc;
pub mod json;
pub mod listener;
pub mod manager;
pub mod naming;
pub mod state;
pub mod window;

use vstd::prelude::*;

verus! {

#[verifier::external_type_specification]
#[verifier::external_body]
pub struct ExIoError(std::io::Error);

/// Errors of the app's own operations.
#[derive(Debug)]
pub enum Error {
    Io(std::io::Error),
    NoInvokeHandler,
}

/// Calls `std::io::Error`'s `Display` (through `to_string`). Nothing is
/// claimed of the text: for an operating-system error it comes from the
/// platform.
#[verifier::external_body]
fn io_error_text(e: &std::io::Error) -> String {
    e.to_string()
}

impl Error {
    /// The text the error displays as.
    pub fn message(&self) -> (r: String)
        ensures
            match self {
                Error::Io(_) => exists|detail: Seq<char>| r@ == "i/o error: "@ + detail,
                Error::NoInvokeHandler => r@ == "Builder::invoke_handler was never called"@,
            },
    {
        match self {
            Error::Io(e) => {
                let detail = io_error_text(e);
                let r = crate::ipc::concat("i/o error: ", detail.as_str());
                assert(r@ == "i/o error: "@ + detail@);
                r
            },
            Error::NoInvokeHandler => "Builder::invoke_handler was never called".to_owned(),
        }
    }
}

impl From<std::io::Error> for Error {
    fn from(value: std::io::Error) -> (r: Error) {
        Error::Io(value)
    }
}

impl vstd::std_specs::convert::FromSpecImpl<std::io::Error> for Error {
    open spec fn obeys_from_spec() -> bool {
        true
    }

    open spec fn from_spec(v: std::io::Error) -> Error {
        Error::Io(v)
    }
}

/// The configuration produced by `generate_context!()`. Real Tauri carries
/// the app config and asset bundle here; the shim has no use for them.
#[derive(Debug)]
pub struct Context {
    _private: (),
}

impl Context {
    pub fn new() -> Context {
        Context { _private: () }
    }
}

impl Clone for Context {
    fn clone(&self) -> (r: Context)
        ensures
            r == *self,
    {
        Context { _private: () }
    }
}

impl Default for Context {
    fn default() -> Context {
        Context { _private: () }
    }
}

/// Stub `Config` returned by `Manager::config()`. Real Tauri returns the
/// parsed `tauri.conf.json`; the shim has no such file.
#[derive(Debug)]
pub struct Config {
    _private: (),
}

impl Config {
    pub fn new() -> Config {
        Config { _private: () }
    }
}

impl Clone for Config {
    fn clone(&self) -> (r: Config)
        ensures
            r == *self,
    {
        Config { _private: () }
    }
}

impl Default for Config {
    fn default() -> Config {
        Config { _private: () }
    }
}

/// Marker trait used as a type parameter on app handles, for parity with
/// upstream Tauri. The shim never dispatches on it.
pub trait Runtime: Send + Sync + 'static {}

/// Default [`Runtime`]. Upstream's Wry-backed runtime; here a no-op marker.
#[derive(Debug, Clone, Copy, Default)]
pub struct Wry;

impl Runtime for Wry {}

} // verus!
