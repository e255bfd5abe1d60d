//! Plugin lifecycle: manifest data, lifecycle state, and the decisions the
//! core takes at the plugin boundary.
//!
//! An aerodynamic model is a shared library loaded at runtime.  Loading the
//! library, resolving its symbols and making the C calls is inherently
//! unverifiable work that lives outside this crate; the host hands the
//! outcomes back in as plain values (the manifest fields, a hook's return
//! code) and the functions here decide what they mean.

use crate::error::FatalPluginError;
use vstd::prelude::*;

verus! {

/// The manifest of a plugin directory (its `info.toml`).
#[derive(Debug, Clone)]
pub struct PluginInfo {
    pub name: String,
    pub author: String,
    pub version: String,
    pub description: String,
}

impl PluginInfo {
    pub fn new(name: &str, author: &str, version: &str, description: &str) -> (r: Self)
        ensures
            r.name@ == name@,
            r.author@ == author@,
            r.version@ == version@,
            r.description@ == description@,
    {
        Self {
            name: String::from_str(name),
            author: String::from_str(author),
            version: String::from_str(version),
            description: String::from_str(description),
        }
    }
}

/// Lifecycle state of a loaded plugin.
#[derive(Debug, Clone, Copy, PartialEq, Eq, Structural)]
pub enum PluginState {
    Enable,
    Disable,
    Failed,
}

impl Default for PluginState {
    /// A freshly loaded plugin is disabled until its install hook succeeds.
    fn default() -> (r: Self)
        ensures
            r == PluginState::Disable,
    {
        PluginState::Disable
    }
}

/// Severity of a message a plugin sends through the host's logger callback.
#[derive(Debug, Clone, Copy, PartialEq, Eq, Structural)]
pub enum LogLevel {
    Trace,
    Debug,
    Info,
    Warn,
    Error,
}

/// The platform file name of a plugin's shared library: `<name>.dll` on
/// Windows, `lib<name>.so` elsewhere.
pub fn library_file_name(name: &str, windows: bool) -> (r: String)
    ensures
        windows ==> r@ == name@ + ".dll"@,
        !windows ==> r@ == "lib"@ + name@ + ".so"@,
{
    if windows {
        String::from_str(name).concat(".dll")
    } else {
        String::from_str("lib").concat(name).concat(".so")
    }
}

/// What a hook's return code means.  Every plugin entry point returns an
/// `int`; a negative value is a failure and is reported with the plugin's
/// name, the code, and the call site.
pub fn hook_outcome(plugin_name: &str, hook_name: &str, code: i32) -> (r: Result<
    (),
    FatalPluginError,
>)
    ensures
        r is Ok <==> code >= 0,
        code < 0 ==> (r matches Err(FatalPluginError::Inner(i)) && i.name@ == plugin_name@
            && i.result == code && i.reason@ == "when call "@ + hook_name@),
{
    if code < 0 {
        let reason = String::from_str("when call ").concat(hook_name);
        Err(FatalPluginError::inner(plugin_name, code, reason.as_str()))
    } else {
        Ok(())
    }
}

} // verus!
