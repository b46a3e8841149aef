//! Selection capture: selected text plus the geometry needed to anchor an
//! overlay next to it.

use vstd::prelude::*;

use crate::errors::EngineError;
use crate::geom::SelectionBounds;
use crate::geom::coord_ok;
use crate::line_anchor::get_current_line_start_x;
use crate::probe::AccessibilityProbe;
use crate::probe::SystemActions;
use crate::replace::AppIdentityStore;
use crate::text16::blank16;
use crate::text16::is_blank;

verus! {

/// Immutable snapshot of one selection at one instant.
#[derive(Clone, Debug)]
pub struct CaptureResult {
    /// The selected text, as UTF-16 code units; never blank.
    pub text: Vec<u16>,
    /// Screen bounds of the selection, when the surface reports them.
    pub bounds: Option<SelectionBounds>,
    /// Leftmost x of the caret's visual line, in centi-units, when
    /// resolvable.
    pub line_start_x: Option<i64>,
}

impl CaptureResult {
    /// The snapshot's internal consistency: non-blank text and clamped
    /// geometry.
    pub open spec fn wf(self) -> bool {
        &&& !blank16(self.text@)
        &&& match self.bounds {
            Some(b) => b.wf(),
            None => true,
        }
        &&& match self.line_start_x {
            Some(x) => coord_ok(x),
            None => true,
        }
    }
}

/// Whether the process holds accessibility permission; every entry point
/// checks this lazily rather than caching it.
pub fn is_accessibility_granted<P: AccessibilityProbe>(probe: &mut P) -> bool {
    probe.is_trusted()
}

/// Screen bounds of the element's current selection, clamped.
fn get_selection_bounds<P: AccessibilityProbe>(probe: &mut P, el: &P::Element) -> (r: Option<
    SelectionBounds,
>)
    ensures
        match r {
            Some(b) => b.wf(),
            None => true,
        },
{
    let range = match probe.selection_range(el) {
        Some(range) => range,
        None => {
            return None;
        },
    };
    match probe.bounds_for_range(el, range.location, range.length) {
        Some(b) => Some(b.sanitized()),
        None => None,
    }
}

/// Capture the selected text and its geometry from the focused element.
///
/// Fails with `PermissionDenied` without accessibility permission, with
/// `NoFocusedElement` when no focused element resolves, and with
/// `NoSelection` when the element reports no selected text or only a
/// blank one. Bounds and line anchor are optional: the caller decides the
/// fallback.
pub fn capture_selection_ax_internal<P: AccessibilityProbe>(probe: &mut P) -> (r: Result<
    CaptureResult,
    EngineError,
>)
    ensures
        match r {
            Ok(c) => c.wf(),
            Err(e) => {
                ||| e matches EngineError::PermissionDenied
                ||| e matches EngineError::NoFocusedElement
                ||| e matches EngineError::NoSelection
            },
        },
{
    if !probe.is_trusted() {
        return Err(EngineError::PermissionDenied);
    }
    let el = match probe.focused_element() {
        Some(el) => el,
        None => {
            return Err(EngineError::NoFocusedElement);
        },
    };
    let text = match probe.selected_text(&el) {
        Some(t) => t,
        None => {
            return Err(EngineError::NoSelection);
        },
    };
    if is_blank(&text) {
        return Err(EngineError::NoSelection);
    }
    let bounds = get_selection_bounds(probe, &el);
    let line_start_x = get_current_line_start_x(probe, &el);
    Ok(CaptureResult { text, bounds, line_start_x })
}

/// Capture the selection and, on success, remember `app_name` — the
/// frontmost application's identity as queried before the capture — for a
/// later replacement. On failure the store is untouched.
pub fn capture_selection_with_app<P: AccessibilityProbe>(
    probe: &mut P,
    store: &mut AppIdentityStore,
    app_name: Option<String>,
) -> (r: Result<CaptureResult, EngineError>)
    ensures
        match r {
            Ok(c) => c.wf() && final(store).stored == app_name,
            Err(e) => {
                &&& *final(store) == *old(store)
                &&& {
                    ||| e matches EngineError::PermissionDenied
                    ||| e matches EngineError::NoFocusedElement
                    ||| e matches EngineError::NoSelection
                }
            },
        },
{
    match capture_selection_ax_internal(probe) {
        Ok(c) => {
            store.store_app_name(app_name);
            Ok(c)
        },
        Err(e) => Err(e),
    }
}

/// Full capture: queries the frontmost application's identity before
/// touching the focused element (capturing can shift focus), then captures
/// and stores that identity for a later replacement.
pub fn capture_selection_ax<P: AccessibilityProbe, S: SystemActions>(
    probe: &mut P,
    sys: &mut S,
    store: &mut AppIdentityStore,
) -> (r: Result<CaptureResult, EngineError>)
    ensures
        match r {
            Ok(c) => c.wf(),
            Err(e) => {
                &&& *final(store) == *old(store)
                &&& {
                    ||| e matches EngineError::PermissionDenied
                    ||| e matches EngineError::NoFocusedElement
                    ||| e matches EngineError::NoSelection
                }
            },
        },
{
    // Query the frontmost application before any focus changes.
    let app_name = sys.frontmost_app_name();
    capture_selection_with_app(probe, store, app_name)
}

/// Lightweight capture for passive polling: no application-identity query,
/// so the poll period never pays for the expensive identity lookup.
pub fn peek_selection_ax<P: AccessibilityProbe>(probe: &mut P) -> (r: Result<
    CaptureResult,
    EngineError,
>)
    ensures
        match r {
            Ok(c) => c.wf(),
            Err(e) => {
                ||| e matches EngineError::PermissionDenied
                ||| e matches EngineError::NoFocusedElement
                ||| e matches EngineError::NoSelection
            },
        },
{
    capture_selection_ax_internal(probe)
}

/// Replace the focused element's selection with the given range, promoting
/// a detected paragraph into a real, visible selection.
pub fn select_text_range<P: AccessibilityProbe>(probe: &mut P, location: usize, length: usize) -> (
    r: Result<(), EngineError>)
    ensures
        r is Err ==> {
            ||| r matches Err(EngineError::PermissionDenied)
            ||| r matches Err(EngineError::NoFocusedElement)
            ||| r matches Err(EngineError::SelectionWriteFailed)
        },
{
    if !probe.is_trusted() {
        return Err(EngineError::PermissionDenied);
    }
    let el = match probe.focused_element() {
        Some(el) => el,
        None => {
            return Err(EngineError::NoFocusedElement);
        },
    };
    if probe.set_selection_range(&el, location, length) {
        Ok(())
    } else {
        Err(EngineError::SelectionWriteFailed)
    }
}

} // verus!
