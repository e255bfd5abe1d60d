//! Error taxonomy of the simulator core.
//!
//! Nothing is recovered locally: every error propagates to the caller that
//! initiated the call.  `FatalCoreError` is what the core itself raises,
//! `FatalPluginError` what the aerodynamic-plugin boundary raises.

use vstd::prelude::*;

verus! {

/// An error reported from inside an aerodynamic plugin: the plugin `name`,
/// the negative return code `result` of the entry point, and the call site.
#[derive(Debug)]
pub struct PluginInner {
    pub name: String,
    pub result: i32,
    pub reason: String,
}

impl PluginInner {
    pub fn new(name: &str, result: i32, reason: &str) -> (r: Self)
        ensures
            r.name@ == name@,
            r.result == result,
            r.reason@ == reason@,
    {
        Self { name: String::from_str(name), result, reason: String::from_str(reason) }
    }
}

/// A fatal error of the simulator core.
#[derive(Debug)]
pub enum FatalCoreError {
    /// A step was requested before the named component was initialized.
    NotInit(String),
    /// No controller was found for the named plane.
    Controller(String),
    /// The aerodynamic plugin failed.
    Plugin(FatalPluginError),
    /// A state, control or auxiliary output component became NaN after a
    /// step; the block is poisoned until it is reset.
    Nan,
}

impl FatalCoreError {
    /// The conversion the core applies to every plugin failure it sees.
    pub fn from_plugin(value: FatalPluginError) -> (r: Self)
        ensures
            r == FatalCoreError::Plugin(value),
    {
        FatalCoreError::Plugin(value)
    }
}

/// A fatal error of the plugin boundary: a required symbol that could not be
/// resolved, or a hook that returned a negative code.
#[derive(Debug)]
pub enum FatalPluginError {
    Symbol(String),
    Inner(PluginInner),
}

impl FatalPluginError {
    pub fn symbol(msg: String) -> (r: Self)
        ensures
            r == FatalPluginError::Symbol(msg),
    {
        FatalPluginError::Symbol(msg)
    }

    pub fn inner(name: &str, result: i32, reason: &str) -> (r: Self)
        ensures
            r matches FatalPluginError::Inner(i) && i.name@ == name@ && i.result == result
                && i.reason@ == reason@,
    {
        FatalPluginError::Inner(PluginInner::new(name, result, reason))
    }
}

} // verus!
