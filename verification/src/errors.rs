//! Diagnostics of the `install` and `run` commands: each error's message,
//! diagnostic code and help text.
use vstd::prelude::*;

use crate::text::{owned, push_str};

verus! {

broadcast use vstd::string::group_string_axioms;

fn cat2(a: &str, b: &str) -> (s: String)
    ensures
        s@ == a@ + b@,
{
    let mut s = owned(a);
    push_str(&mut s, b);
    s
}

fn cat3(a: &str, b: &str, c: &str) -> (s: String)
    ensures
        s@ == a@ + b@ + c@,
{
    let mut s = cat2(a, b);
    push_str(&mut s, c);
    s
}

fn cat5(a: &str, b: &str, c: &str, d: &str, e: &str) -> (s: String)
    ensures
        s@ == a@ + b@ + c@ + d@ + e@,
{
    let mut s = cat3(a, b, c);
    push_str(&mut s, d);
    push_str(&mut s, e);
    s
}

/// Errors of `component install`.
#[derive(Debug, PartialEq, Eq)]
pub enum InstallError {
    /// No `wasm.toml` in the current directory.
    NoManifest,
    /// The dependency resolver found no solution, or no runtime for one.
    DependencyConflict(String),
}

impl InstallError {
    pub open spec fn spec_message(&self) -> Seq<char> {
        match self {
            InstallError::NoManifest => "no local `wasm.toml` manifest found"@,
            InstallError::DependencyConflict(reason) => "dependency conflict: "@ + reason@,
        }
    }

    pub open spec fn spec_code(&self) -> Seq<char> {
        match self {
            InstallError::NoManifest => "component::install::no_manifest"@,
            InstallError::DependencyConflict(_) => "component::install::dependency_conflict"@,
        }
    }

    pub open spec fn spec_help(&self) -> Seq<char> {
        match self {
            InstallError::NoManifest => "call `component init` to create a `wasm.toml` manifest locally\ncall `component registry fetch <component>` to fetch the package without affecting the local manifest"@,
            InstallError::DependencyConflict(_) => "Run `component registry fetch` to update the registry index.\nIf the conflict persists, check for incompatible dependency\nversion constraints in the packages you are installing."@,
        }
    }

    /// The error's message.
    pub fn message(&self) -> (m: String)
        ensures
            m@ == self.spec_message(),
    {
        match self {
            InstallError::NoManifest => owned("no local `wasm.toml` manifest found"),
            InstallError::DependencyConflict(reason) => cat2(
                "dependency conflict: ",
                reason.as_str(),
            ),
        }
    }

    /// The diagnostic code.
    pub fn code(&self) -> (c: &'static str)
        ensures
            c@ == self.spec_code(),
    {
        match self {
            InstallError::NoManifest => "component::install::no_manifest",
            InstallError::DependencyConflict(_) => "component::install::dependency_conflict",
        }
    }

    /// The help text that suggests a way out.
    pub fn help(&self) -> (h: String)
        ensures
            h@ == self.spec_help(),
    {
        match self {
            InstallError::NoManifest => owned(
                "call `component init` to create a `wasm.toml` manifest locally\ncall `component registry fetch <component>` to fetch the package without affecting the local manifest",
            ),
            InstallError::DependencyConflict(_) => owned(
                "Run `component registry fetch` to update the registry index.\nIf the conflict persists, check for incompatible dependency\nversion constraints in the packages you are installing.",
            ),
        }
    }
}

/// Errors of `component run`.
#[derive(Debug, PartialEq, Eq)]
pub enum RunError {
    /// The pulled image has no manifest.
    NoManifest,
    /// The manifest has no `application/wasm` layer.
    NoWasmLayer,
    /// A manifest key has no lockfile entry.
    NotInLockfile { name: String },
    /// The vendored file of a component is missing.
    VendoredFileMissing { path: String, name: String },
    /// The HTTP server could not bind its address.
    HttpBindFailed { addr: String, reason: String },
    /// The HTTP listener failed to accept a connection.
    HttpAcceptFailed { reason: String },
    /// The component is not in the global cache.
    NotInGlobalCache { name: String },
}

impl RunError {
    pub open spec fn spec_message(&self) -> Seq<char> {
        match self {
            RunError::NoManifest => "pulled image has no manifest"@,
            RunError::NoWasmLayer => "manifest contains no application/wasm layer"@,
            RunError::NotInLockfile { name } => "component '"@ + name@
                + "' is in the manifest but not in the lockfile"@,
            RunError::VendoredFileMissing { path, name } => "vendored file '"@ + path@
                + "' not found for component '"@ + name@ + "'"@,
            RunError::HttpBindFailed { addr, reason } => "failed to bind HTTP server to "@ + addr@
                + ": "@ + reason@,
            RunError::HttpAcceptFailed { reason } => "failed to accept incoming HTTP connection: "@
                + reason@,
            RunError::NotInGlobalCache { name } => "component '"@ + name@
                + "' is not present in the global cache"@,
        }
    }

    pub open spec fn spec_code(&self) -> Seq<char> {
        match self {
            RunError::NoManifest => "component::run::no_manifest"@,
            RunError::NoWasmLayer => "component::run::no_wasm_layer"@,
            RunError::NotInLockfile { .. } => "component::run::not_in_lockfile"@,
            RunError::VendoredFileMissing { .. } => "component::run::vendored_file_missing"@,
            RunError::HttpBindFailed { .. } => "component::run::http_bind_failed"@,
            RunError::HttpAcceptFailed { .. } => "component::run::http_accept_failed"@,
            RunError::NotInGlobalCache { .. } => "component::run::not_in_global_cache"@,
        }
    }

    pub open spec fn spec_help(&self) -> Seq<char> {
        match self {
            RunError::NoManifest => "ensure the OCI reference points to a valid Wasm package"@,
            RunError::NoWasmLayer => "ensure the image contains an `application/wasm` layer"@,
            RunError::NotInLockfile { name } => "run `component install "@ + name@
                + "` to populate the lockfile"@,
            RunError::VendoredFileMissing { path, name } => "'"@ + path@
                + "' not found; run `component install "@ + name@ + "` to vendor the component"@,
            RunError::HttpBindFailed { addr, reason } => reason@ + "; ensure the address '"@ + addr@
                + "' is available and not in use by another process"@,
            RunError::HttpAcceptFailed { reason } => "the HTTP listener encountered an error: "@
                + reason@,
            RunError::NotInGlobalCache { name } => "run `component install "@ + name@
                + "` to fetch '"@ + name@ + "' into the cache first"@,
        }
    }

    /// The error's message.
    pub fn message(&self) -> (m: String)
        ensures
            m@ == self.spec_message(),
    {
        match self {
            RunError::NoManifest => owned("pulled image has no manifest"),
            RunError::NoWasmLayer => owned("manifest contains no application/wasm layer"),
            RunError::NotInLockfile { name } => cat3(
                "component '",
                name.as_str(),
                "' is in the manifest but not in the lockfile",
            ),
            RunError::VendoredFileMissing { path, name } => cat5(
                "vendored file '",
                path.as_str(),
                "' not found for component '",
                name.as_str(),
                "'",
            ),
            RunError::HttpBindFailed { addr, reason } => {
                let mut s = cat3("failed to bind HTTP server to ", addr.as_str(), ": ");
                push_str(&mut s, reason.as_str());
                s
            },
            RunError::HttpAcceptFailed { reason } => cat2(
                "failed to accept incoming HTTP connection: ",
                reason.as_str(),
            ),
            RunError::NotInGlobalCache { name } => cat3(
                "component '",
                name.as_str(),
                "' is not present in the global cache",
            ),
        }
    }

    /// The diagnostic code.
    pub fn code(&self) -> (c: &'static str)
        ensures
            c@ == self.spec_code(),
    {
        match self {
            RunError::NoManifest => "component::run::no_manifest",
            RunError::NoWasmLayer => "component::run::no_wasm_layer",
            RunError::NotInLockfile { .. } => "component::run::not_in_lockfile",
            RunError::VendoredFileMissing { .. } => "component::run::vendored_file_missing",
            RunError::HttpBindFailed { .. } => "component::run::http_bind_failed",
            RunError::HttpAcceptFailed { .. } => "component::run::http_accept_failed",
            RunError::NotInGlobalCache { .. } => "component::run::not_in_global_cache",
        }
    }

    /// The help text that suggests a way out.
    pub fn help(&self) -> (h: String)
        ensures
            h@ == self.spec_help(),
    {
        match self {
            RunError::NoManifest => owned("ensure the OCI reference points to a valid Wasm package"),
            RunError::NoWasmLayer => owned("ensure the image contains an `application/wasm` layer"),
            RunError::NotInLockfile { name } => cat3(
                "run `component install ",
                name.as_str(),
                "` to populate the lockfile",
            ),
            RunError::VendoredFileMissing { path, name } => cat5(
                "'",
                path.as_str(),
                "' not found; run `component install ",
                name.as_str(),
                "` to vendor the component",
            ),
            RunError::HttpBindFailed { addr, reason } => {
                let mut s = cat3(reason.as_str(), "; ensure the address '", addr.as_str());
                push_str(&mut s, "' is available and not in use by another process");
                s
            },
            RunError::HttpAcceptFailed { reason } => cat2(
                "the HTTP listener encountered an error: ",
                reason.as_str(),
            ),
            RunError::NotInGlobalCache { name } => cat5(
                "run `component install ",
                name.as_str(),
                "` to fetch '",
                name.as_str(),
                "' into the cache first",
            ),
        }
    }
}

} // verus!
