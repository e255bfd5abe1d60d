//! Tests of the plugin boundary decisions and the error taxonomy.

use fly_ruler_core::error::{FatalCoreError, FatalPluginError, PluginInner};
use fly_ruler_core::plugin::{hook_outcome, library_file_name, LogLevel, PluginInfo, PluginState};

#[test]
fn test_plugin_info_fields() {
    let info = PluginInfo::new(
        "f16_model",
        "windlx",
        "0.1.0",
        "A f16 model based on NASA reports",
    );
    assert_eq!(info.name, "f16_model");
    assert_eq!(info.author, "windlx");
    assert_eq!(info.version, "0.1.0");
    assert_eq!(info.description, "A f16 model based on NASA reports");
}

#[test]
fn test_plugin_state_default() {
    assert_eq!(PluginState::default(), PluginState::Disable);
}

#[test]
fn test_library_file_name() {
    assert_eq!(library_file_name("f16_model", true), "f16_model.dll");
    assert_eq!(library_file_name("f16_model", false), "libf16_model.so");
    assert_eq!(library_file_name("", false), "lib.so");
}

#[test]
fn test_hook_outcome_success() {
    assert!(hook_outcome("f16_model", "frplugin_install_hook", 0).is_ok());
    assert!(hook_outcome("f16_model", "frplugin_install_hook", 1).is_ok());
    assert!(hook_outcome("f16_model", "frmodel_step", i32::MAX).is_ok());
}

#[test]
fn test_hook_outcome_failure() {
    let r = hook_outcome("f16_model", "frplugin_install_hook", -1);
    match r {
        Err(FatalPluginError::Inner(inner)) => {
            assert_eq!(inner.name, "f16_model");
            assert_eq!(inner.result, -1);
            assert_eq!(inner.reason, "when call frplugin_install_hook");
        }
        _ => panic!("a negative hook code must be reported as an inner plugin error"),
    }
}

#[test]
fn test_plugin_inner_new() {
    let inner = PluginInner::new("f16_model", -2, "when call frmodel_init");
    assert_eq!(inner.name, "f16_model");
    assert_eq!(inner.result, -2);
    assert_eq!(inner.reason, "when call frmodel_init");
}

#[test]
fn test_fatal_plugin_error_constructors() {
    let e = FatalPluginError::symbol(String::from("frmodel_step not found"));
    assert!(matches!(e, FatalPluginError::Symbol(ref s) if s == "frmodel_step not found"));

    let e = FatalPluginError::inner("f16_model", -3, "when call frmodel_trim");
    match e {
        FatalPluginError::Inner(inner) => {
            assert_eq!(inner.name, "f16_model");
            assert_eq!(inner.result, -3);
            assert_eq!(inner.reason, "when call frmodel_trim");
        }
        _ => panic!("inner must build the Inner variant"),
    }
}

#[test]
fn test_fatal_core_error_from_plugin() {
    let e = FatalCoreError::from_plugin(FatalPluginError::symbol(String::from("missing")));
    assert!(matches!(
        e,
        FatalCoreError::Plugin(FatalPluginError::Symbol(ref s)) if s == "missing"
    ));
}

#[test]
fn test_log_level_variants_distinct() {
    let levels = [
        LogLevel::Trace,
        LogLevel::Debug,
        LogLevel::Info,
        LogLevel::Warn,
        LogLevel::Error,
    ];
    for (i, a) in levels.iter().enumerate() {
        for (j, b) in levels.iter().enumerate() {
            assert_eq!(i == j, a == b);
        }
    }
}
