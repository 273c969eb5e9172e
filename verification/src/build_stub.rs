//! No-op stand-ins for the build-script helpers (`tauri_build::build()` and
//! the `Attributes`-based forms). Under the debug shim there is no bundle to
//! assemble, so every call succeeds and does nothing.

use vstd::prelude::*;

verus! {

/// Mirrors `tauri_build::build`. Returns immediately.
pub fn build() {
}

/// Mirrors `tauri_build::try_build`. Always succeeds.
pub fn try_build(attributes: Attributes) -> (r: Result<(), Error>)
    ensures
        r is Ok,
{
    Ok(())
}

/// Stub mirroring upstream's builder. All setters return `self` and do
/// nothing; the resulting value is consumed by `try_build`.
#[derive(Debug)]
pub struct Attributes {
    _private: (),
}

impl Attributes {
    pub fn new() -> Attributes {
        Attributes { _private: () }
    }

    pub fn codegen(self, codegen: CodegenContext) -> (r: Attributes)
        ensures
            r == self,
    {
        self
    }

    pub fn plugin(self, name: &str, attributes: InlinedPlugin) -> (r: Attributes)
        ensures
            r == self,
    {
        self
    }

    pub fn app_manifest(self, manifest: AppManifest) -> (r: Attributes)
        ensures
            r == self,
    {
        self
    }
}

impl Default for Attributes {
    fn default() -> Attributes {
        Attributes { _private: () }
    }
}

impl Clone for Attributes {
    fn clone(&self) -> (r: Attributes)
        ensures
            r == *self,
    {
        Attributes { _private: () }
    }
}

#[derive(Debug)]
pub struct CodegenContext {
    _private: (),
}

impl CodegenContext {
    pub fn new() -> CodegenContext {
        CodegenContext { _private: () }
    }

    pub fn dev(self) -> (r: CodegenContext)
        ensures
            r == self,
    {
        self
    }
}

impl Default for CodegenContext {
    fn default() -> CodegenContext {
        CodegenContext { _private: () }
    }
}

impl Clone for CodegenContext {
    fn clone(&self) -> (r: CodegenContext)
        ensures
            r == *self,
    {
        CodegenContext { _private: () }
    }
}

#[derive(Debug)]
pub struct InlinedPlugin {
    _private: (),
}

impl InlinedPlugin {
    pub fn new() -> InlinedPlugin {
        InlinedPlugin { _private: () }
    }
}

impl Default for InlinedPlugin {
    fn default() -> InlinedPlugin {
        InlinedPlugin { _private: () }
    }
}

impl Clone for InlinedPlugin {
    fn clone(&self) -> (r: InlinedPlugin)
        ensures
            r == *self,
    {
        InlinedPlugin { _private: () }
    }
}

#[derive(Debug)]
pub struct AppManifest {
    _private: (),
}

impl AppManifest {
    pub fn new() -> AppManifest {
        AppManifest { _private: () }
    }
}

impl Default for AppManifest {
    fn default() -> AppManifest {
        AppManifest { _private: () }
    }
}

impl Clone for AppManifest {
    fn clone(&self) -> (r: AppManifest)
        ensures
            r == *self,
    {
        AppManifest { _private: () }
    }
}

/// Error returned by `try_build`. The shim never produces one; the type
/// exists for API compatibility.
#[derive(Debug)]
pub struct Error;

/// The text an `Error` displays as.
pub fn error_message(e: &Error) -> (r: String)
    ensures
        r@ == "tauri-build (shim) error"@,
{
    "tauri-build (shim) error".to_owned()
}

} // verus!
