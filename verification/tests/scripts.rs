use vista_shell::routing::{
    AGENT_READY_SENTINEL, CALL_SENTINEL, CLOSE_SENTINEL, RECONNECT_SENTINEL,
};
use vista_shell::scripts::{
    close_bridge_script, desktop_marker_script, platform_init_script, startup_plugins,
    tab_init_script, voice_bridge_script, Plugin, DIALOG_CAPTURE_PLUGIN, DIALOG_CAPTURE_SCRIPT,
    DIALOG_GLOBALS_SCRIPT, TERMINATE_SCRIPT,
};

const CLOSE_BRIDGE: &str = r#"(function () {
  window.close = function () {
    window.location.href = 'https://vista-desktop.invalid/__close__';
  };
})();"#;

const VOICE_BRIDGE: &str = r#"(function () {
  window.__VISTA_SET_CALL_ACTIVE = function (active) {
    window.open('https://vista-desktop.invalid/__call_active__/' + (active ? '1' : '0'));
  };
  window.__VISTA_AGENT_READY = function () {
    window.open('https://vista-desktop.invalid/__agent_ready__');
  };
  window.__VISTA_RECONNECT_PHONE = function () {
    window.open('https://vista-desktop.invalid/__reconnect_phone__');
  };
})();"#;

#[test]
fn marker_carries_the_version() {
    assert_eq!(desktop_marker_script("0.2.7"), "window.__VISTA_DESKTOP__ = '0.2.7';");
}

#[test]
fn close_bridge_is_complete() {
    assert_eq!(close_bridge_script(), CLOSE_BRIDGE);
    assert!(close_bridge_script().contains(CLOSE_SENTINEL));
}

#[test]
fn voice_bridge_is_complete() {
    let script = voice_bridge_script();
    assert_eq!(script, VOICE_BRIDGE);
    assert!(script.contains(CALL_SENTINEL));
    assert!(script.contains(AGENT_READY_SENTINEL));
    assert!(script.contains(RECONNECT_SENTINEL));
}

#[test]
fn platform_script_is_marker_dialogs_voice() {
    let expected = format!(
        "window.__VISTA_DESKTOP__ = '1.0';{}{}",
        DIALOG_GLOBALS_SCRIPT, VOICE_BRIDGE
    );
    assert_eq!(platform_init_script("1.0"), expected);
}

#[test]
fn tab_script_is_marker_dialogs_close_voice() {
    let expected = format!(
        "window.__VISTA_DESKTOP__ = '1.0';{}{}{}",
        DIALOG_GLOBALS_SCRIPT, CLOSE_BRIDGE, VOICE_BRIDGE
    );
    assert_eq!(tab_init_script("1.0"), expected);
    assert!(tab_init_script("1.0").starts_with(&desktop_marker_script("1.0")));
}

#[test]
fn dialog_scripts_share_the_stash() {
    for script in [DIALOG_CAPTURE_SCRIPT, DIALOG_GLOBALS_SCRIPT] {
        assert!(script.starts_with("(function () {\n  'use strict';\n"));
        assert!(script.ends_with("})();"));
        assert!(script.contains("var STASH = '__VISTA_NATIVE_DIALOGS__';"));
    }
    assert!(TERMINATE_SCRIPT.contains("window.connect.core.terminate()"));
    assert_eq!(DIALOG_CAPTURE_PLUGIN, "vista-dialog-capture");
    assert_ne!(DIALOG_CAPTURE_PLUGIN, "updater");
    assert_ne!(DIALOG_CAPTURE_PLUGIN, "dialog");
}

#[test]
fn capture_is_registered_first() {
    assert_eq!(
        startup_plugins(),
        vec![Plugin::DialogCapture, Plugin::Updater, Plugin::Dialog]
    );
}
