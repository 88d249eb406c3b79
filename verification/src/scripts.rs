//! The scripts that the shell runs in its webviews.

use vstd::prelude::*;

use crate::routing::{
    AGENT_READY_SENTINEL, CALL_SENTINEL, CLOSE_SENTINEL, RECONNECT_SENTINEL,
};
use crate::text::{occurs_at, occurs_in};

verus! {

/// What stands before the close sentinel in the close bridge.
pub const CLOSE_BRIDGE_HEAD: &'static str = r#"(function () {
  window.close = function () {
    window.location.href = '"#;

/// What stands behind the close sentinel in the close bridge.
pub const CLOSE_BRIDGE_TAIL: &'static str = r#"';
  };
})();"#;

/// What stands before the call sentinel in the voice bridge.
pub const VOICE_BRIDGE_CALL: &'static str = r#"(function () {
  window.__VISTA_SET_CALL_ACTIVE = function (active) {
    window.open('"#;

/// What stands before the agent-ready sentinel in the voice bridge.
pub const VOICE_BRIDGE_READY: &'static str = r#"' + (active ? '1' : '0'));
  };
  window.__VISTA_AGENT_READY = function () {
    window.open('"#;

/// What stands before the reconnect sentinel in the voice bridge.
pub const VOICE_BRIDGE_RECONNECT: &'static str = r#"');
  };
  window.__VISTA_RECONNECT_PHONE = function () {
    window.open('"#;

/// What ends the voice bridge.
pub const VOICE_BRIDGE_TAIL: &'static str = r#"');
  };
})();"#;

/// The script that turns a page's `window.close()` into a navigation to the
/// close sentinel.
pub open spec fn close_bridge() -> Seq<char> {
    CLOSE_BRIDGE_HEAD@ + CLOSE_SENTINEL@ + CLOSE_BRIDGE_TAIL@
}

/// The script that gives the softphone page its hooks into the shell.
pub open spec fn voice_bridge() -> Seq<char> {
    VOICE_BRIDGE_CALL@ + CALL_SENTINEL@ + VOICE_BRIDGE_READY@ + AGENT_READY_SENTINEL@
        + VOICE_BRIDGE_RECONNECT@ + RECONNECT_SENTINEL@ + VOICE_BRIDGE_TAIL@
}

/// Ends the softphone session of a page from within, while the page's own
/// webview is still alive.
pub const TERMINATE_SCRIPT: &'static str =
    "try{window.connect&&window.connect.core&&window.connect.core.terminate&&window.connect.core.terminate()}catch(e){}";

/// Name of the plugin that captures the dialog functions. It is unique: a
/// plugin that is registered under a taken name replaces the earlier one.
pub const DIALOG_CAPTURE_PLUGIN: &'static str = "vista-dialog-capture";

/// Stashes the native `confirm`, `alert` and `prompt` of a document before the
/// dialog plugin replaces them. It runs first in every document of every
/// webview.
///
/// The dialog plugin makes `confirm` asynchronous, so that it returns a promise
/// and every guarded action goes ahead unasked; it makes `alert` show nothing.
pub const DIALOG_CAPTURE_SCRIPT: &'static str = r#"(function () {
  'use strict';

  var STASH = '__VISTA_NATIVE_DIALOGS__';
  var NAMES = ['confirm', 'alert', 'prompt'];

  function isNative(fn) {
    try {
      return typeof fn === 'function' &&
        Function.prototype.toString.call(fn).indexOf('[native code]') !== -1;
    } catch (e) { return false; }
  }

  // Idempotent. A document-start script can be replayed on the same document;
  // an earlier stash is by definition the more pristine one, so never redo it.
  try { if (window[STASH]) return; } catch (e) { return; }

  var fns = {};
  var pre = {};
  for (var i = 0; i < NAMES.length; i++) {
    var n = NAMES[i];
    var raw = null;
    try { raw = window[n]; } catch (e) { raw = null; }
    if (isNative(raw)) {
      pre[n] = 'native';
      try { fns[n] = raw.bind(window); } catch (e) { pre[n] = 'bindfail'; }
    } else if (typeof raw === 'function') {
      // Someone already replaced it => we did NOT run first. Recorded so the
      // diagnostic can say so out loud instead of us guessing again.
      pre[n] = 'overridden';
    } else {
      pre[n] = 'missing';
    }
  }

  var stash = { fns: fns, pre: pre };
  try { Object.freeze(fns); Object.freeze(pre); Object.freeze(stash); } catch (e) {}

  // Non-configurable + non-writable: the page cannot reassign or delete it.
  var ok = false;
  try {
    Object.defineProperty(window, STASH,
      { value: stash, writable: false, enumerable: false, configurable: false });
    ok = true;
  } catch (e) {}
  if (!ok) {
    try {
      Object.defineProperty(window, STASH,
        { value: stash, writable: false, enumerable: false, configurable: true });
      ok = true;
    } catch (e) {}
  }
  if (!ok) { try { window[STASH] = stash; } catch (e) {} }

  // Minimal early install, so the fix holds even if DIALOG_GLOBALS_SCRIPT
  // never runs (title bar / sign-in window) or throws. The accessor's setter
  // swallows the dialog plugin's `window.confirm = ...` a few scripts later.
  // enumerable:true matches the native WebIDL [Global] property it replaces.
  function text(v) { return v === undefined || v === null ? '' : String(v); }

  function pin(name, impl) {
    try {
      Object.defineProperty(window, name, {
        configurable: true,
        enumerable: true,
        get: function () { return impl; },
        set: function () { /* swallow the plugin's reassignment; must not throw */ }
      });
    } catch (e) {
      try { window[name] = impl; } catch (e2) {}
    }
  }

  if (fns.confirm) {
    pin('confirm', function (m) {
      try { return fns.confirm(text(m)) === true; } catch (e) { return false; }
    });
  }
  if (fns.alert) {
    pin('alert', function (m) {
      try { fns.alert(text(m)); } catch (e) {}
    });
  }
  if (fns.prompt) {
    pin('prompt', function (m, d) {
      try {
        return arguments.length > 1 ? fns.prompt(text(m), text(d)) : fns.prompt(text(m));
      } catch (e) { return null; }
    });
  }
})();"#;

/// Resolves `confirm`, `alert` and `prompt` to the native functions, best
/// source first, and fails closed where none is left. It runs last in content
/// webviews and records what it found for the diagnostic overlay.
pub const DIALOG_GLOBALS_SCRIPT: &'static str = r#"(function () {
  'use strict';

  var STASH = '__VISTA_NATIVE_DIALOGS__';
  var DIAG = '__VISTA_DIALOG_DIAG__';
  var OVERLAY_ID = '__vista_dialog_diag_overlay__';
  var NAMES = ['confirm', 'alert', 'prompt'];

  function isNative(fn) {
    try {
      return typeof fn === 'function' &&
        Function.prototype.toString.call(fn).indexOf('[native code]') !== -1;
    } catch (e) { return false; }
  }

  function text(v) { return v === undefined || v === null ? '' : String(v); }

  var isTop = true;
  try { isTop = window.top === window; } catch (e) { isTop = false; }

  // ── Source 1: the pre-plugin stash (DIALOG_CAPTURE_SCRIPT) ────────
  function fromStash(name) {
    var s = null;
    try { s = window[STASH]; } catch (e) { return { fn: null, why: 'throw' }; }
    if (!s) return { fn: null, why: 'absent' };
    var fn = null;
    try { fn = s.fns ? s.fns[name] : null; } catch (e) {}
    if (isNative(fn)) return { fn: fn, why: 'ok' };
    var pre = '?';
    try { pre = (s.pre && s.pre[name]) || '?'; } catch (e) {}
    return { fn: null, why: 'pre=' + pre };
  }

  // ── Source 2: our own global, if nothing ever replaced it ─────────
  // Read via the descriptor so we never invoke an accessor we installed
  // ourselves (which would hand back a non-native wrapper).
  function fromOwn(name) {
    var d = null;
    try { d = Object.getOwnPropertyDescriptor(window, name); }
    catch (e) { return { fn: null, why: 'throw' }; }
    if (!d) return { fn: null, why: 'absent' };
    if (!('value' in d)) return { fn: null, why: 'accessor' };
    if (!isNative(d.value)) return { fn: null, why: 'replaced' };
    try { return { fn: d.value.bind(window), why: 'ok' }; }
    catch (e) { return { fn: null, why: 'bindfail' }; }
  }

  // ── Source 3: Window.prototype ────────────────────────────────────
  // Measured DEAD on Chromium (WebIDL [Global] => own properties, never the
  // prototype). One property read; kept for engines that differ.
  function fromProto(name) {
    var fn = null;
    try {
      var proto = Object.getPrototypeOf(window);
      fn = proto ? proto[name] : null;
    } catch (e) { return { fn: null, why: 'throw' }; }
    if (!isNative(fn)) return { fn: null, why: 'absent' };
    try { return { fn: fn.bind(window), why: 'ok' }; }
    catch (e) { return { fn: null, why: 'bindfail' }; }
  }

  // ── Source 4: a same-origin about:blank child realm ───────────────
  // v0.2.6's load-bearing path; now known to be POLLUTED on Windows, because
  // wry injects every init script into subframes there. Kept because it costs
  // nothing and may hold elsewhere — and because that same fan-out means the
  // child realm carries its own stash, which we prefer over its raw globals.
  var frameEl = null;
  function frameWin() {
    // MAIN FRAME ONLY — this guard is load-bearing, do not drop it.
    // On Windows wry fans EVERY init script into EVERY frame, so the
    // about:blank child created below runs this very script, and its
    // probe() would create a child of its own, and so on. Measured in
    // Chromium: uncapped, that chain hangs the renderer synchronously on
    // the first confirm(); depth-capped, it reached 7. The main frame is
    // also the only frame that needs this source — on Windows a subframe
    // already carries the capture stash, and on other platforms a subframe
    // never receives this script at all.
    if (!isTop) return null;
    try {
      if (frameEl && frameEl.isConnected && frameEl.contentWindow) return frameEl.contentWindow;
      var root = document.body || document.documentElement;
      if (!root) return null;
      frameEl = document.createElement('iframe');
      frameEl.setAttribute('aria-hidden', 'true');
      frameEl.setAttribute('tabindex', '-1');
      frameEl.style.cssText =
        'position:absolute;left:-9999px;top:0;width:1px;height:1px;border:0;';
      root.appendChild(frameEl);
      return frameEl.contentWindow;
    } catch (e) { return null; }
  }

  function fromFrame(name) {
    var w = frameWin();
    if (!w) return { fn: null, why: 'nowin' };
    try {
      var s = w[STASH];
      var sf = s && s.fns ? s.fns[name] : null;
      if (isNative(sf)) return { fn: sf, why: 'ok-stash' };
    } catch (e) {}
    var fn = null;
    try { fn = w[name]; } catch (e) { return { fn: null, why: 'throw' }; }
    if (!isNative(fn)) return { fn: null, why: 'polluted' };
    try { return { fn: fn.bind(w), why: 'ok' }; }
    catch (e) { return { fn: null, why: 'bindfail' }; }
  }

  var SOURCES = [
    ['stash', fromStash],
    ['own', fromOwn],
    ['proto', fromProto],
    ['frame', fromFrame]
  ];

  // ── Diagnostic state ──────────────────────────────────────────────
  var diag = {
    app: null,
    top: isTop,
    url: '',
    stash: 'absent',
    source: { confirm: null, alert: null, prompt: null },
    tried: { confirm: null, alert: null, prompt: null },
    calls: []
  };
  try { diag.app = window.__VISTA_DESKTOP__ || null; } catch (e) {}
  // Route SHAPE only — never the ids, never the query string. This overlay
  // exists to be screenshotted and sent to support, and a
  // /manage/<companyId>/clients/<clientId> path carries record identifiers
  // that must not leave the BAA boundary. The shell has no address bar, so
  // this overlay is the ONLY place a URL becomes visible and copyable.
  try {
    var path = String(location.pathname)
      .replace(/[0-9a-fA-F]{8}-[0-9a-fA-F]{4}-[0-9a-fA-F]{4}-[0-9a-fA-F]{4}-[0-9a-fA-F]{12}/g, ':id')
      .replace(/\/\d{3,}/g, '/:id');
    diag.url = (String(location.origin) + path).slice(0, 200);
  } catch (e) {}
  try {
    var s0 = window[STASH];
    diag.stash = s0 ? JSON.stringify(s0.pre) : 'absent';
  } catch (e) {}

  function record(kind, src, result) {
    // NEVER the message text — a confirm prompt can carry PHI.
    try {
      if (diag.calls.length >= 12) diag.calls.shift();
      diag.calls.push(kind + ' via ' + (src || 'NOTHING') + ' -> ' + result);
    } catch (e) {}
  }

  // Bookkeeping must never be able to throw into a dialog call: `diag` is
  // reachable from the page, and a frozen/booby-trapped diag object throwing
  // out of native() would propagate through confirm() — or, worse, out of the
  // install-time probe() and skip the pin() calls below, restoring the
  // original fail-OPEN bug.
  function note(name, tried, label) {
    try {
      diag.tried[name] = tried.join('  ');
      diag.source[name] = label;
    } catch (e) {}
  }

  var cache = {};
  function native(name) {
    if (cache[name]) return cache[name];
    var tried = [];
    for (var i = 0; i < SOURCES.length; i++) {
      var label = SOURCES[i][0];
      var r;
      try { r = SOURCES[i][1](name); } catch (e) { r = { fn: null, why: 'threw' }; }
      tried.push(label + '=' + r.why);
      if (r.fn) {
        note(name, tried, label);
        // The frame realm is re-resolved on every call: the page can rip the
        // iframe out of the DOM, and a detached frame's dialog methods
        // silently become no-ops. Every other source is stable, so cache it.
        if (label !== 'frame') cache[name] = r.fn;
        return r.fn;
      }
    }
    note(name, tried, null);
    return null;
  }

  // ── The globals ───────────────────────────────────────────────────
  function vistaConfirm(message) {
    var fn = native('confirm');
    if (!fn) { record('confirm', null, 'FAIL-CLOSED (returned false)'); report(); return false; }
    var out = false;
    try { out = fn(text(message)) === true; } catch (e) { out = false; }
    record('confirm', diag.source.confirm, String(out));
    return out;
  }

  function vistaAlert(message) {
    var fn = native('alert');
    if (!fn) { record('alert', null, 'FAIL-CLOSED (nothing shown)'); report(); return undefined; }
    try { fn(text(message)); } catch (e) {}
    record('alert', diag.source.alert, 'shown');
    return undefined;
  }

  function vistaPrompt(message, fallback) {
    var fn = native('prompt');
    if (!fn) { record('prompt', null, 'FAIL-CLOSED (returned null)'); report(); return null; }
    var out = null;
    try {
      // Forward a default ONLY when the caller passed one: prompt(msg, undefined)
      // renders the literal string "undefined" in the input box.
      out = arguments.length > 1 ? fn(text(message), text(fallback)) : fn(text(message));
    } catch (e) { out = null; }
    record('prompt', diag.source.prompt, out === null ? 'cancelled' : 'string');
    return out;
  }

  // ── Readable-without-devtools diagnostic ──────────────────────────
  function dump() {
    var out = [];
    out.push('app      : ' + diag.app);
    out.push('url      : ' + diag.url);
    out.push('top frame: ' + diag.top);
    out.push('capture  : ' + diag.stash);
    for (var i = 0; i < NAMES.length; i++) {
      var n = NAMES[i];
      try { if (!diag.tried[n]) native(n); } catch (e) {}
      out.push(n + ' <- ' + (diag.source[n] || 'NOTHING — fails closed'));
      out.push('   tried: ' + diag.tried[n]);
    }
    out.push('calls    :');
    if (!diag.calls.length) { out.push('   (none yet)'); }
    for (var j = 0; j < diag.calls.length; j++) { out.push('   ' + diag.calls[j]); }
    return out.join('\n');
  }

  function button(label, onClick) {
    var b = document.createElement('button');
    b.type = 'button';
    b.textContent = label;
    b.style.cssText = 'font:12px/1 Consolas,ui-monospace,monospace;padding:6px 10px;' +
      'border-radius:6px;border:1px solid #55606f;background:#1c232c;color:#e7ecf3;' +
      'cursor:pointer';
    b.addEventListener('click', onClick);
    return b;
  }

  function show(auto) {
    if (!isTop) return;
    try {
      var host = document.body || document.documentElement;
      if (!host) return;
      var old = document.getElementById(OVERLAY_ID);
      if (old) {
        if (auto) return;                                  // already up
        try { old.parentNode.removeChild(old); } catch (e) {}
        return;                                            // hotkey = toggle off
      }
      var box = document.createElement('div');
      box.id = OVERLAY_ID;
      box.style.cssText = 'position:fixed;left:12px;bottom:12px;z-index:2147483647;' +
        'width:560px;max-width:calc(100vw - 24px);max-height:70vh;overflow:auto;' +
        'background:#12161c;color:#e7ecf3;border:1px solid #3a4553;border-radius:10px;' +
        'padding:12px 14px;font:12px/1.5 Consolas,ui-monospace,monospace;' +
        'white-space:pre-wrap;word-break:break-word;box-shadow:0 10px 40px rgba(0,0,0,.55)';

      var head = document.createElement('div');
      head.style.cssText = 'font-weight:700;margin-bottom:8px;color:' +
        (auto ? '#ffb4a2' : '#8bd4ff');
      head.textContent = auto
        ? 'Vista desktop could not open a dialog — the action was BLOCKED, nothing changed.'
        : 'Vista desktop — dialog diagnostics';
      box.appendChild(head);

      var body = document.createElement('div');
      body.textContent = dump();
      box.appendChild(body);

      var row = document.createElement('div');
      row.style.cssText = 'margin-top:10px;display:flex;gap:8px';
      row.appendChild(button('Copy', function () {
        try { navigator.clipboard.writeText(dump()); } catch (e) {}
      }));
      row.appendChild(button('Close', function () {
        try { box.parentNode.removeChild(box); } catch (e) {}
      }));
      box.appendChild(row);

      host.appendChild(box);
    } catch (e) {}
  }

  var autoShown = false;
  function report() {
    if (autoShown || !isTop) return;
    autoShown = true;
    show(true);
  }

  function onKey(e) {
    // Ctrl+Alt+Shift+D. Deliberately obscure; nothing renders otherwise.
    try {
      if (e.ctrlKey && e.altKey && e.shiftKey && (e.key === 'D' || e.key === 'd')) {
        e.preventDefault();
        e.stopPropagation();
        show(false);
      }
    } catch (err) {}
  }

  diag.dump = dump;
  diag.show = function () { show(false); };
  try {
    Object.defineProperty(window, DIAG,
      { value: diag, writable: false, enumerable: false, configurable: true });
  } catch (e) { try { window[DIAG] = diag; } catch (e2) {} }

  // ── Install ───────────────────────────────────────────────────────
  function pin(name, impl) {
    try {
      Object.defineProperty(window, name, {
        configurable: true,
        enumerable: true,
        get: function () { return impl; },
        set: function () { /* swallow the plugin's reassignment; must not throw */ }
      });
    } catch (e) {
      try { window[name] = impl; } catch (e2) {}
    }
  }

  function probe() {
    for (var i = 0; i < NAMES.length; i++) {
      try { if (!diag.source[NAMES[i]]) native(NAMES[i]); } catch (e) {}
    }
  }

  // ⚠️ PROBE BEFORE PIN, ALWAYS. `fromOwn` reads window.confirm's own
  // descriptor; pinning first would replace it with our accessor and
  // permanently blind that source — which is exactly the source that carries
  // us if a future plugin version stops overriding a global (2.7.1 already
  // leaves `prompt` alone). Caught by scenario [6] of the node harness.
  // stash/own/proto all resolve here at document-start; the frame source needs
  // a DOM, so re-probe once the document exists. Failures are never cached, so
  // the second pass really does retry. When the stash works no iframe is ever
  // created — the frame source is not even reached.
  probe();

  pin('confirm', vistaConfirm);
  pin('alert', vistaAlert);
  pin('prompt', vistaPrompt);

  if (isTop) { try { window.addEventListener('keydown', onKey, true); } catch (e) {} }
  try {
    if (document.readyState === 'loading') {
      document.addEventListener('DOMContentLoaded', probe, { once: true });
    }
  } catch (e) {}
})();"#;

/// The script that marks a page as running inside the desktop app, of the given
/// version.
pub open spec fn marker(version: Seq<char>) -> Seq<char> {
    "window.__VISTA_DESKTOP__ = '"@ + version + "';"@
}

/// Marks the page as running inside the desktop app. The web app reads
/// `window.__VISTA_DESKTOP__` and then leaves out its install prompt.
pub fn desktop_marker_script(version: &str) -> (r: String)
    ensures
        r@ == marker(version@),
{
    let mut script: String = "window.__VISTA_DESKTOP__ = '".to_owned();
    script.append(version);
    script.append("';");
    script
}

/// Turns a page's `window.close()` into a navigation to the close sentinel.
///
/// The engine closes only windows that a script opened, and the shell opens its
/// tabs natively, so without this a page's own close button blanks the page.
pub fn close_bridge_script() -> (r: String)
    ensures
        r@ == close_bridge(),
{
    let mut script: String = CLOSE_BRIDGE_HEAD.to_owned();
    script.append(CLOSE_SENTINEL);
    script.append(CLOSE_BRIDGE_TAIL);
    script
}

/// Gives the softphone page its hooks into the shell.
///
/// The signals go through `window.open`: a navigation, even a cancelled one,
/// would first raise the softphone frame's leave warning.
pub fn voice_bridge_script() -> (r: String)
    ensures
        r@ == voice_bridge(),
{
    let mut script: String = VOICE_BRIDGE_CALL.to_owned();
    script.append(CALL_SENTINEL);
    script.append(VOICE_BRIDGE_READY);
    script.append(AGENT_READY_SENTINEL);
    script.append(VOICE_BRIDGE_RECONNECT);
    script.append(RECONNECT_SENTINEL);
    script.append(VOICE_BRIDGE_TAIL);
    script
}

/// The start script of the Platform tab.
pub open spec fn platform_init(version: Seq<char>) -> Seq<char> {
    marker(version) + DIALOG_GLOBALS_SCRIPT@ + voice_bridge()
}

/// The start script of every other tab.
pub open spec fn tab_init(version: Seq<char>) -> Seq<char> {
    marker(version) + DIALOG_GLOBALS_SCRIPT@ + close_bridge() + voice_bridge()
}

/// Builds the start script of the Platform tab. The voice bridge is part of it
/// in case the Platform tab itself lands on the softphone page.
pub fn platform_init_script(version: &str) -> (r: String)
    ensures
        r@ == platform_init(version@),
{
    let mut script: String = desktop_marker_script(version);
    script.append(DIALOG_GLOBALS_SCRIPT);
    script.append(voice_bridge_script().as_str());
    script
}

/// Builds the start script of every other tab, which can also close itself.
pub fn tab_init_script(version: &str) -> (r: String)
    ensures
        r@ == tab_init(version@),
{
    let mut script: String = desktop_marker_script(version);
    script.append(DIALOG_GLOBALS_SCRIPT);
    script.append(close_bridge_script().as_str());
    script.append(voice_bridge_script().as_str());
    script
}

/// In every start script the marker stands first: the dialog diagnostic reads
/// the version from it.
pub proof fn law_marker_comes_first(version: Seq<char>)
    ensures
        marker(version).is_prefix_of(platform_init(version)),
        marker(version).is_prefix_of(tab_init(version)),
{
    assert(platform_init(version).take(marker(version).len() as int) =~= marker(version));
    assert(tab_init(version).take(marker(version).len() as int) =~= marker(version));
}

proof fn lemma_middle_occurs(head: Seq<char>, middle: Seq<char>, tail: Seq<char>)
    ensures
        occurs_in(middle, head + middle + tail),
{
    let whole = head + middle + tail;
    let at = head.len() as int;
    assert(whole.subrange(at, at + middle.len()) =~= middle);
    assert(occurs_at(middle, whole, at));
}

/// The bridges signal by the very addresses that the shell listens for.
pub proof fn law_bridges_use_the_sentinels()
    ensures
        occurs_in(CLOSE_SENTINEL@, close_bridge()),
        occurs_in(CALL_SENTINEL@, voice_bridge()),
        occurs_in(AGENT_READY_SENTINEL@, voice_bridge()),
        occurs_in(RECONNECT_SENTINEL@, voice_bridge()),
{
    lemma_middle_occurs(CLOSE_BRIDGE_HEAD@, CLOSE_SENTINEL@, CLOSE_BRIDGE_TAIL@);
    let after_ready = VOICE_BRIDGE_RECONNECT@ + RECONNECT_SENTINEL@ + VOICE_BRIDGE_TAIL@;
    let after_call = VOICE_BRIDGE_READY@ + AGENT_READY_SENTINEL@ + after_ready;
    let before_ready = VOICE_BRIDGE_CALL@ + CALL_SENTINEL@ + VOICE_BRIDGE_READY@;
    let before_reconnect = before_ready + AGENT_READY_SENTINEL@ + VOICE_BRIDGE_RECONNECT@;
    lemma_middle_occurs(VOICE_BRIDGE_CALL@, CALL_SENTINEL@, after_call);
    assert(VOICE_BRIDGE_CALL@ + CALL_SENTINEL@ + after_call =~= voice_bridge());
    lemma_middle_occurs(before_ready, AGENT_READY_SENTINEL@, after_ready);
    assert(before_ready + AGENT_READY_SENTINEL@ + after_ready =~= voice_bridge());
    lemma_middle_occurs(before_reconnect, RECONNECT_SENTINEL@, VOICE_BRIDGE_TAIL@);
}

/// A plugin of the shell.
#[derive(Debug, Clone, Copy, PartialEq, Eq, Structural)]
pub enum Plugin {
    /// Runs the dialog capture script in every document.
    DialogCapture,
    /// Fetches and installs new versions.
    Updater,
    /// Shows native message boxes.
    Dialog,
}

/// The plugins in the order in which they are registered.
pub open spec fn plugin_order() -> Seq<Plugin> {
    seq![Plugin::DialogCapture, Plugin::Updater, Plugin::Dialog]
}

/// The plugins in the order in which they are registered. Their scripts run in
/// this order.
pub fn startup_plugins() -> (r: Vec<Plugin>)
    ensures
        r@ == plugin_order(),
{
    let mut plugins: Vec<Plugin> = Vec::new();
    plugins.push(Plugin::DialogCapture);
    plugins.push(Plugin::Updater);
    plugins.push(Plugin::Dialog);
    plugins
}

/// The name under which a plugin is registered.
pub open spec fn plugin_name(plugin: Plugin) -> Seq<char> {
    match plugin {
        Plugin::DialogCapture => DIALOG_CAPTURE_PLUGIN@,
        Plugin::Updater => "updater"@,
        Plugin::Dialog => "dialog"@,
    }
}

/// The name of the dialog capture is its own: no plugin that is registered later
/// replaces it, and it replaces none.
pub proof fn law_plugin_names_are_unique(a: Plugin, b: Plugin)
    requires
        plugin_name(a) == plugin_name(b),
    ensures
        a == b,
{
    reveal_strlit("vista-dialog-capture");
    reveal_strlit("updater");
    reveal_strlit("dialog");
    assert(DIALOG_CAPTURE_PLUGIN@.len() == 20);
    assert("updater"@.len() == 7);
    assert("dialog"@.len() == 6);
}

/// The dialog capture is registered before every other plugin, the dialog
/// plugin among them: it has to see the native functions before the dialog
/// plugin replaces them.
pub proof fn law_capture_comes_first(capture: int, other: int)
    requires
        0 <= capture < plugin_order().len(),
        0 <= other < plugin_order().len(),
        plugin_order()[capture] == Plugin::DialogCapture,
        plugin_order()[other] != Plugin::DialogCapture,
    ensures
        capture < other,
{
}

/// The marker holds the version, whatever it is, as the quoted value of the variable
/// that the web app reads, and nothing else.
pub proof fn law_marker_quotes_the_version(version: &str, r: String)
    requires
        call_ensures(desktop_marker_script, (version,), r),
    ensures
        ({
            let head = "window.__VISTA_DESKTOP__ = '"@;
            let tail = "';"@;
            &&& r@.len() == head.len() + version@.len() + tail.len()
            &&& head.is_prefix_of(r@)
            &&& tail.is_suffix_of(r@)
            &&& r@.subrange(head.len() as int, (head.len() + version@.len()) as int) == version@
        }),
{
    let head = "window.__VISTA_DESKTOP__ = '"@;
    let tail = "';"@;
    let whole = head + version@ + tail;
    assert(whole.subrange(0, head.len() as int) =~= head);
    assert(whole.subrange(whole.len() - tail.len(), whole.len() as int) =~= tail);
    assert(whole.subrange(head.len() as int, (head.len() + version@.len()) as int) =~= version@);
}

/// For every version, the start script of a tab is the marker, the dialog functions, the
/// close bridge and the voice bridge, in this order; that of the Platform tab is the same
/// without the close bridge.
pub proof fn law_start_scripts_are_made_of_the_parts(
    version: &str,
    marker: String,
    close: String,
    voice: String,
    platform: String,
    tab: String,
)
    requires
        call_ensures(desktop_marker_script, (version,), marker),
        call_ensures(close_bridge_script, (), close),
        call_ensures(voice_bridge_script, (), voice),
        call_ensures(platform_init_script, (version,), platform),
        call_ensures(tab_init_script, (version,), tab),
    ensures
        platform@ == marker@ + DIALOG_GLOBALS_SCRIPT@ + voice@,
        tab@ == marker@ + DIALOG_GLOBALS_SCRIPT@ + close@ + voice@,
        tab@.len() == platform@.len() + close@.len(),
        occurs_in(CLOSE_SENTINEL@, close@),
        occurs_in(CALL_SENTINEL@, voice@),
        occurs_in(AGENT_READY_SENTINEL@, voice@),
        occurs_in(RECONNECT_SENTINEL@, voice@),
{
    law_bridges_use_the_sentinels();
}

/// The shell registers three plugins: the dialog capture first, then the updater and the
/// dialog plugin.
pub proof fn law_registered_plugins(r: Vec<Plugin>)
    requires
        call_ensures(startup_plugins, (), r),
    ensures
        r@.len() == 3,
        r@[0] == Plugin::DialogCapture,
        r@.contains(Plugin::Updater),
        r@.contains(Plugin::Dialog),
        forall|i: int| 0 < i < r@.len() ==> r@[i] != Plugin::DialogCapture,
{
    assert(r@[1] == Plugin::Updater);
    assert(r@[2] == Plugin::Dialog);
}

} // verus!
