use seltrack::capture::capture_selection_ax;
use seltrack::commands::{dismiss, replace_text};
use seltrack::errors::{EngineError, ExternalTool};
use seltrack::geom::SelectionBounds;
use seltrack::probe::{AccessibilityProbe, SystemActions, TextRange};
use seltrack::replace::{
    refresh_app_identity, replace_via_clipboard, settle_delay_ms, AppIdentityStore, ReplaceFlow,
};

fn utf16(s: &str) -> Vec<u16> {
    s.encode_utf16().collect()
}

/// Scripted system helpers that record what was done to them.
struct FakeSystem {
    frontmost: Option<String>,
    clipboard_ok: bool,
    activate_ok: bool,
    paste_ok: bool,
    clipboard: Option<String>,
    activated: Vec<String>,
    settles: Vec<u64>,
    pastes: usize,
}

impl FakeSystem {
    fn new() -> Self {
        FakeSystem {
            frontmost: Some("Editor".to_string()),
            clipboard_ok: true,
            activate_ok: true,
            paste_ok: true,
            clipboard: None,
            activated: Vec::new(),
            settles: Vec::new(),
            pastes: 0,
        }
    }
}

impl SystemActions for FakeSystem {
    fn frontmost_app_name(&mut self) -> Option<String> {
        self.frontmost.clone()
    }

    fn set_clipboard(&mut self, text: &str) -> Result<(), String> {
        if self.clipboard_ok {
            self.clipboard = Some(text.to_string());
            Ok(())
        } else {
            Err("pbcopy failed".to_string())
        }
    }

    fn activate_app(&mut self, name: &str) -> Result<(), String> {
        if self.activate_ok {
            self.activated.push(name.to_string());
            Ok(())
        } else {
            Err("activate failed".to_string())
        }
    }

    fn settle(&mut self, millis: u64) {
        self.settles.push(millis);
    }

    fn simulate_paste(&mut self) -> Result<(), String> {
        if self.paste_ok {
            self.pastes += 1;
            Ok(())
        } else {
            Err("keystroke failed".to_string())
        }
    }

    fn mouse_position(&mut self) -> (i64, i64) {
        (0, 0)
    }
}

/// A minimal succeeding accessibility surface.
struct OkProbe;

impl AccessibilityProbe for OkProbe {
    type Element = ();

    fn is_trusted(&mut self) -> bool {
        true
    }

    fn focused_element(&mut self) -> Option<()> {
        Some(())
    }

    fn selected_text(&mut self, _el: &()) -> Option<Vec<u16>> {
        Some(utf16("hello"))
    }

    fn selection_range(&mut self, _el: &()) -> Option<TextRange> {
        Some(TextRange { location: 0, length: 5 })
    }

    fn full_text(&mut self, _el: &()) -> Option<Vec<u16>> {
        Some(utf16("hello"))
    }

    fn bounds_for_range(&mut self, _el: &(), _location: usize, _length: usize) -> Option<SelectionBounds> {
        Some(SelectionBounds { x: 100, y: 200, width: 5000, height: 1600 })
    }

    fn set_selection_range(&mut self, _el: &(), _location: usize, _length: usize) -> bool {
        true
    }
}

#[test]
fn replace_without_stored_app_fails() {
    let mut store = AppIdentityStore::new();
    let mut sys = FakeSystem::new();
    let r = replace_via_clipboard(&mut store, &mut sys, "new text", ReplaceFlow::Indicator);
    assert!(matches!(r, Err(EngineError::NoStoredApp)));
    // Nothing was attempted.
    assert!(sys.clipboard.is_none());
    assert!(sys.activated.is_empty());
}

#[test]
fn replace_runs_the_whole_sequence() {
    let mut store = AppIdentityStore::new();
    store.store_app_name(Some("Editor".to_string()));
    let mut sys = FakeSystem::new();

    let r = replace_via_clipboard(&mut store, &mut sys, "new text", ReplaceFlow::Indicator);
    assert!(r.is_ok());
    assert_eq!(sys.clipboard.as_deref(), Some("new text"));
    assert_eq!(sys.activated, vec!["Editor".to_string()]);
    assert_eq!(sys.settles, vec![150]);
    assert_eq!(sys.pastes, 1);
    // The identity is consumed by a successful replacement.
    assert!(store.get_stored_app_name().is_none());
}

#[test]
fn full_capture_flow_waits_longer() {
    let mut store = AppIdentityStore::new();
    store.store_app_name(Some("Editor".to_string()));
    let mut sys = FakeSystem::new();
    let r = replace_via_clipboard(&mut store, &mut sys, "x", ReplaceFlow::FullCapture);
    assert!(r.is_ok());
    assert_eq!(sys.settles, vec![500]);
    assert_eq!(settle_delay_ms(ReplaceFlow::Indicator), 150);
    assert_eq!(settle_delay_ms(ReplaceFlow::FullCapture), 500);
}

#[test]
fn clipboard_failure_keeps_stored_app() {
    let mut store = AppIdentityStore::new();
    store.store_app_name(Some("Editor".to_string()));
    let mut sys = FakeSystem::new();
    sys.clipboard_ok = false;

    let r = replace_via_clipboard(&mut store, &mut sys, "x", ReplaceFlow::Indicator);
    assert!(matches!(
        r,
        Err(EngineError::ExternalToolFailure(ExternalTool::Clipboard, _))
    ));
    // The sequence stopped before the paste step: the identity survives
    // for a retry.
    assert_eq!(store.get_stored_app_name(), Some("Editor".to_string()));
    assert!(sys.activated.is_empty());
}

#[test]
fn activation_failure_keeps_stored_app() {
    let mut store = AppIdentityStore::new();
    store.store_app_name(Some("Editor".to_string()));
    let mut sys = FakeSystem::new();
    sys.activate_ok = false;

    let r = replace_via_clipboard(&mut store, &mut sys, "x", ReplaceFlow::Indicator);
    assert!(matches!(
        r,
        Err(EngineError::ExternalToolFailure(ExternalTool::AppActivation, _))
    ));
    assert_eq!(store.get_stored_app_name(), Some("Editor".to_string()));
    assert_eq!(sys.pastes, 0);
}

#[test]
fn paste_failure_still_clears_stored_app() {
    let mut store = AppIdentityStore::new();
    store.store_app_name(Some("Editor".to_string()));
    let mut sys = FakeSystem::new();
    sys.paste_ok = false;

    let r = replace_via_clipboard(&mut store, &mut sys, "x", ReplaceFlow::Indicator);
    assert!(matches!(
        r,
        Err(EngineError::ExternalToolFailure(ExternalTool::PasteKeystroke, _))
    ));
    // The paste was attempted: no stale replay is possible.
    assert!(store.get_stored_app_name().is_none());
}

#[test]
fn capture_then_dismiss_then_replace_fails() {
    // Scenario: a capture succeeds (storing the identity), dismiss is
    // called, then replacement is invoked: it fails with NoStoredApp.
    let mut probe = OkProbe;
    let mut sys = FakeSystem::new();
    let mut store = AppIdentityStore::new();

    let cap = capture_selection_ax(&mut probe, &mut sys, &mut store).unwrap();
    assert_eq!(cap.text, utf16("hello"));
    assert_eq!(store.get_stored_app_name(), Some("Editor".to_string()));

    dismiss(&mut store);

    let r = replace_text(&mut store, &mut sys, "edited", ReplaceFlow::FullCapture);
    assert!(matches!(r, Err(EngineError::NoStoredApp)));
    assert!(sys.clipboard.is_none());
}

#[test]
fn replace_after_replace_fails_until_new_capture() {
    let mut store = AppIdentityStore::new();
    store.store_app_name(Some("Editor".to_string()));
    let mut sys = FakeSystem::new();

    assert!(replace_text(&mut store, &mut sys, "first", ReplaceFlow::Indicator).is_ok());
    let r = replace_text(&mut store, &mut sys, "second", ReplaceFlow::Indicator);
    assert!(matches!(r, Err(EngineError::NoStoredApp)));
}

#[test]
fn stored_identity_last_write_wins() {
    let mut store = AppIdentityStore::new();
    store.store_app_name(Some("One".to_string()));
    store.store_app_name(Some("Two".to_string()));
    assert_eq!(store.get_stored_app_name(), Some("Two".to_string()));
    store.clear_stored_element();
    assert!(store.get_stored_app_name().is_none());
}

#[test]
fn refresh_identity_needs_a_frontmost_app() {
    let mut store = AppIdentityStore::new();
    let mut sys = FakeSystem::new();
    sys.frontmost = None;
    let r = refresh_app_identity(&mut store, &mut sys);
    assert!(matches!(r, Err(EngineError::NoFrontmostApp)));
    assert!(store.get_stored_app_name().is_none());

    sys.frontmost = Some("Notes".to_string());
    assert!(refresh_app_identity(&mut store, &mut sys).is_ok());
    assert_eq!(store.get_stored_app_name(), Some("Notes".to_string()));
}

#[test]
fn cache_frontmost_app_requires_identity() {
    let mut store = AppIdentityStore::new();
    let r = store.cache_frontmost_app_for_replace(None);
    assert!(matches!(r, Err(EngineError::NoFrontmostApp)));
    let r = store.cache_frontmost_app_for_replace(Some("Notes".to_string()));
    assert!(r.is_ok());
    assert_eq!(store.get_stored_app_name(), Some("Notes".to_string()));
}
