//! Command layer: the operations the consuming UI invokes, and the cached
//! snapshots they promote.

use vstd::prelude::*;

use crate::capture;
use crate::capture::capture_selection_ax;
use crate::capture::select_text_range;
use crate::errors::EngineError;
use crate::geom::clamp_coord;
use crate::geom::coord_ok;
use crate::paragraph::ParagraphResult;
use crate::paragraph::peek_paragraph_ax;
use crate::probe::AccessibilityProbe;
use crate::probe::SystemActions;
use crate::replace::AppIdentityStore;
use crate::text16::blank16;
use crate::text16::copy_range;

verus! {

/// Height assigned to the caret-sized rectangle when positioning falls
/// back to the pointer, in centi-units (20 logical units).
pub const FALLBACK_CARET_HEIGHT: i64 = 2000;

/// A capture normalized for positioning: the selection text together with
/// one definite screen rectangle.
#[derive(Clone, Debug)]
pub struct CaptureResult {
    /// The captured text, as UTF-16 code units; never blank.
    pub text: Vec<u16>,
    /// Left edge of the anchoring rectangle, in centi-units.
    pub x: i64,
    /// Top edge of the anchoring rectangle, in centi-units.
    pub y: i64,
    /// Width of the anchoring rectangle, in centi-units.
    pub width: i64,
    /// Height of the anchoring rectangle, in centi-units.
    pub height: i64,
    /// Leftmost x of the selection's first visual line, when resolved.
    pub line_start_x: Option<i64>,
}

impl CaptureResult {
    /// Non-blank text and clamped geometry.
    pub open spec fn wf(self) -> bool {
        &&& !blank16(self.text@)
        &&& coord_ok(self.x)
        &&& coord_ok(self.y)
        &&& coord_ok(self.width)
        &&& coord_ok(self.height)
        &&& match self.line_start_x {
            Some(v) => coord_ok(v),
            None => true,
        }
    }

    /// An owned copy with the same contents.
    pub fn duplicate(&self) -> (r: Self)
        ensures
            same_capture(r, *self),
    {
        let text = copy_range(&self.text, 0, self.text.len());
        proof {
            assert(text@ =~= self.text@);
        }
        CaptureResult {
            text,
            x: self.x,
            y: self.y,
            width: self.width,
            height: self.height,
            line_start_x: self.line_start_x,
        }
    }
}

/// Two normalized captures with the same contents.
pub open spec fn same_capture(a: CaptureResult, b: CaptureResult) -> bool {
    &&& a.text@ == b.text@
    &&& a.x == b.x
    &&& a.y == b.y
    &&& a.width == b.width
    &&& a.height == b.height
    &&& a.line_start_x == b.line_start_x
}

/// A paragraph snapshot normalized for positioning and later promotion
/// into a real selection.
#[derive(Clone, Debug)]
pub struct ParagraphInfo {
    /// The paragraph text, as UTF-16 code units; never blank.
    pub text: Vec<u16>,
    /// Left edge of the paragraph rectangle, in centi-units.
    pub x: i64,
    /// Top edge of the paragraph rectangle, in centi-units.
    pub y: i64,
    /// Width of the paragraph rectangle, in centi-units.
    pub width: i64,
    /// Height of the paragraph rectangle, in centi-units.
    pub height: i64,
    /// Leftmost x of the paragraph's first line, when resolved.
    pub line_start_x: Option<i64>,
    /// UTF-16 offset of the paragraph within the element's full text.
    pub range_location: usize,
    /// UTF-16 length of the paragraph.
    pub range_length: usize,
}

impl ParagraphInfo {
    /// Non-blank, newline-free text, clamped geometry, and a span that
    /// matches the text.
    pub open spec fn wf(self) -> bool {
        &&& !blank16(self.text@)
        &&& forall|i: int|
            0 <= i < self.text@.len() ==> !crate::text16::is_newline(self.text@[i])
        &&& self.range_length == self.text@.len()
        &&& self.range_location + self.range_length <= usize::MAX
        &&& coord_ok(self.x)
        &&& coord_ok(self.y)
        &&& coord_ok(self.width)
        &&& coord_ok(self.height)
        &&& match self.line_start_x {
            Some(v) => coord_ok(v),
            None => true,
        }
    }

    /// An owned copy with the same contents.
    pub fn duplicate(&self) -> (r: Self)
        ensures
            same_paragraph(r, *self),
    {
        let text = copy_range(&self.text, 0, self.text.len());
        proof {
            assert(text@ =~= self.text@);
        }
        ParagraphInfo {
            text,
            x: self.x,
            y: self.y,
            width: self.width,
            height: self.height,
            line_start_x: self.line_start_x,
            range_location: self.range_location,
            range_length: self.range_length,
        }
    }
}

/// Two paragraph snapshots with the same contents.
pub open spec fn same_paragraph(a: ParagraphInfo, b: ParagraphInfo) -> bool {
    &&& a.text@ == b.text@
    &&& a.x == b.x
    &&& a.y == b.y
    &&& a.width == b.width
    &&& a.height == b.height
    &&& a.line_start_x == b.line_start_x
    &&& a.range_location == b.range_location
    &&& a.range_length == b.range_length
}

/// The process-wide snapshot caches the promote-to-UI commands consume.
///
/// A capture and a paragraph snapshot semantically supersede one another,
/// so establishing one clears the other: at most one is present at a time.
pub struct CaptureCache {
    /// The last capture established, if any.
    pub capture: Option<CaptureResult>,
    /// The last paragraph snapshot established, if any.
    pub paragraph: Option<ParagraphInfo>,
}

impl CaptureCache {
    /// At most one snapshot kind is cached at a time.
    pub open spec fn wf(self) -> bool {
        !(self.capture is Some && self.paragraph is Some)
    }

    /// An empty cache.
    pub fn new() -> (s: Self)
        ensures
            s.capture is None,
            s.paragraph is None,
            s.wf(),
    {
        CaptureCache { capture: None, paragraph: None }
    }

    /// Establish (or clear) the cached capture. Establishing one clears
    /// any cached paragraph, which it supersedes.
    pub fn cache_capture(&mut self, result: Option<CaptureResult>)
        ensures
            final(self).capture == result,
            result is Some ==> final(self).paragraph is None,
            result is None ==> final(self).paragraph == old(self).paragraph,
            old(self).wf() ==> final(self).wf(),
    {
        if result.is_some() {
            self.paragraph = None;
        }
        self.capture = result;
    }

    /// Establish (or clear) the cached paragraph. Establishing one clears
    /// any cached capture, which it supersedes.
    pub fn cache_paragraph(&mut self, info: Option<ParagraphInfo>)
        ensures
            final(self).paragraph == info,
            info is Some ==> final(self).capture is None,
            info is None ==> final(self).capture == old(self).capture,
            old(self).wf() ==> final(self).wf(),
    {
        if info.is_some() {
            self.capture = None;
        }
        self.paragraph = info;
    }

    /// A copy of the cached capture, if any.
    pub fn get_cached_capture(&self) -> (r: Option<CaptureResult>)
        ensures
            match (r, self.capture) {
                (Some(a), Some(c)) => same_capture(a, c),
                (None, None) => true,
                _ => false,
            },
    {
        match &self.capture {
            Some(c) => Some(c.duplicate()),
            None => None,
        }
    }

    /// A copy of the cached paragraph, if any.
    pub fn get_cached_paragraph(&self) -> (r: Option<ParagraphInfo>)
        ensures
            match (r, self.paragraph) {
                (Some(a), Some(p)) => same_paragraph(a, p),
                (None, None) => true,
                _ => false,
            },
    {
        match &self.paragraph {
            Some(p) => Some(p.duplicate()),
            None => None,
        }
    }
}

/// Whether a reported bounds value can anchor the overlay: present and
/// wider than the degenerate-range sentinel.
pub open spec fn usable_bounds(b: Option<crate::geom::SelectionBounds>) -> bool {
    match b {
        Some(b) => b.usable(),
        None => false,
    }
}

/// The caret-sized capture placed at the pointer when no usable selection
/// bounds exist: the queried pointer position, clamped, becomes the
/// rectangle's corner, with zero width and the fixed caret height; text
/// and line anchor pass through unchanged.
pub fn fallback_capture(text: Vec<u16>, line_start_x: Option<i64>, pointer: (i64, i64)) -> (c:
    CaptureResult)
    requires
        !blank16(text@),
        match line_start_x {
            Some(v) => coord_ok(v),
            None => true,
        },
    ensures
        c.wf(),
        c.text@ == text@,
        c.line_start_x == line_start_x,
        c.x as int == crate::geom::clamp_coord_spec(pointer.0),
        c.y as int == crate::geom::clamp_coord_spec(pointer.1),
        c.width == 0,
        c.height == FALLBACK_CARET_HEIGHT,
{
    CaptureResult {
        text,
        x: clamp_coord(pointer.0),
        y: clamp_coord(pointer.1),
        width: 0,
        height: FALLBACK_CARET_HEIGHT,
        line_start_x,
    }
}

/// Normalize a raw capture into one definite rectangle.
///
/// True selection bounds are preferred for stable positioning. When the
/// bounds are absent or degenerate, a full capture falls back to a
/// caret-sized rectangle at the pointer position, while a passive peek
/// (`allow_mouse_fallback == false`) must not be repositioned to the
/// pointer and fails with `NoSelectionBounds` instead.
pub fn normalize_capture<S: SystemActions>(
    result: capture::CaptureResult,
    allow_mouse_fallback: bool,
    sys: &mut S,
) -> (r: Result<CaptureResult, EngineError>)
    requires
        result.wf(),
    ensures
        r is Err <==> !usable_bounds(result.bounds) && !allow_mouse_fallback,
        match r {
            Ok(c) => {
                &&& c.wf()
                &&& c.text@ == result.text@
                &&& c.line_start_x == result.line_start_x
                &&& match result.bounds {
                    Some(b) => b.usable() ==> c.x == b.x && c.y == b.y && c.width == b.width
                        && c.height == b.height,
                    None => true,
                }
                &&& !usable_bounds(result.bounds) ==> c.width == 0 && c.height
                    == FALLBACK_CARET_HEIGHT
            },
            Err(e) => e matches EngineError::NoSelectionBounds,
        },
{
    let anchor = match &result.bounds {
        Some(b) => {
            if b.is_usable() {
                Some(*b)
            } else {
                None
            }
        },
        None => None,
    };
    if let Some(b) = anchor {
        Ok(
            CaptureResult {
                text: result.text,
                x: b.x,
                y: b.y,
                width: b.width,
                height: b.height,
                line_start_x: result.line_start_x,
            },
        )
    } else if !allow_mouse_fallback {
        Err(EngineError::NoSelectionBounds)
    } else {
        let pointer = sys.mouse_position();
        Ok(fallback_capture(result.text, result.line_start_x, pointer))
    }
}

/// Whether the process holds accessibility permission; checked lazily on
/// every entry point rather than cached.
pub fn check_accessibility_permission<P: AccessibilityProbe>(probe: &mut P) -> bool {
    capture::is_accessibility_granted(probe)
}

/// Full capture command: capture the selection, store the application
/// identity for a later replacement, and normalize with the pointer
/// fallback enabled.
pub fn capture_and_locate_sync<P: AccessibilityProbe, S: SystemActions>(
    probe: &mut P,
    sys: &mut S,
    store: &mut AppIdentityStore,
) -> (r: Result<CaptureResult, EngineError>)
    ensures
        match r {
            Ok(c) => c.wf(),
            Err(e) => {
                &&& *final(store) == *old(store)
                &&& {
                    ||| e matches EngineError::PermissionDenied
                    ||| e matches EngineError::NoFocusedElement
                    ||| e matches EngineError::NoSelection
                }
            },
        },
{
    let raw = match capture_selection_ax(probe, sys, store) {
        Ok(raw) => raw,
        Err(e) => {
            return Err(e);
        },
    };
    match normalize_capture(raw, true, sys) {
        Ok(c) => Ok(c),
        Err(_) => {
            proof {
                assert(false);
            }
            Err(EngineError::NoSelection)
        },
    }
}

/// Passive peek command: capture without the application-identity query,
/// with the pointer fallback disabled so the indicator stays attached to
/// real selection bounds.
pub fn peek_and_locate_sync<P: AccessibilityProbe, S: SystemActions>(probe: &mut P, sys: &mut S) -> (
    r: Result<CaptureResult, EngineError>)
    ensures
        match r {
            Ok(c) => c.wf(),
            Err(e) => {
                ||| e matches EngineError::PermissionDenied
                ||| e matches EngineError::NoFocusedElement
                ||| e matches EngineError::NoSelection
                ||| e matches EngineError::NoSelectionBounds
            },
        },
{
    let raw = match capture::peek_selection_ax(probe) {
        Ok(raw) => raw,
        Err(e) => {
            return Err(e);
        },
    };
    normalize_capture(raw, false, sys)
}

/// Whether a reported paragraph rectangle can anchor the indicator:
/// present and taller than the collapsed-rectangle sentinel. A paragraph
/// rectangle is judged by its height: its width is genuine text extent,
/// but a collapsed height means the range rendered no line.
pub open spec fn usable_paragraph_bounds(b: Option<crate::geom::SelectionBounds>) -> bool {
    match b {
        Some(b) => b.usable_height(),
        None => false,
    }
}

/// Normalize a paragraph snapshot into one definite rectangle.
///
/// Succeeds exactly when the surface reported paragraph bounds of usable
/// height, passing every field of the snapshot through unchanged; fails
/// with `NoParagraphBounds` otherwise. There is no pointer fallback on the
/// paragraph path: its consumer is the passive indicator.
pub fn normalize_paragraph(result: ParagraphResult) -> (r: Result<ParagraphInfo, EngineError>)
    requires
        result.wf(),
    ensures
        r is Err <==> !usable_paragraph_bounds(result.bounds),
        r is Err ==> r matches Err(EngineError::NoParagraphBounds),
        match r {
            Ok(p) => {
                &&& p.wf()
                &&& p.text@ == result.text@
                &&& match result.bounds {
                    Some(b) => p.x == b.x && p.y == b.y && p.width == b.width && p.height
                        == b.height,
                    None => false,
                }
                &&& p.line_start_x == result.line_start_x
                &&& p.range_location == result.range_location
                &&& p.range_length == result.range_length
            },
            Err(_) => true,
        },
{
    let b = match &result.bounds {
        Some(b) => {
            if b.is_usable_height() {
                *b
            } else {
                return Err(EngineError::NoParagraphBounds);
            }
        },
        None => {
            return Err(EngineError::NoParagraphBounds);
        },
    };
    Ok(
        ParagraphInfo {
            text: result.text,
            x: b.x,
            y: b.y,
            width: b.width,
            height: b.height,
            line_start_x: result.line_start_x,
            range_location: result.range_location,
            range_length: result.range_length,
        },
    )
}

/// Paragraph peek command: detect the caret's paragraph and normalize it,
/// requiring a usable paragraph rectangle.
pub fn peek_paragraph_sync<P: AccessibilityProbe>(probe: &mut P) -> (r: Result<
    ParagraphInfo,
    EngineError,
>)
    ensures
        match r {
            Ok(p) => p.wf(),
            Err(e) => {
                ||| e matches EngineError::PermissionDenied
                ||| e matches EngineError::NoFocusedElement
                ||| e matches EngineError::NoTextRange
                ||| e matches EngineError::HasSelection
                ||| e matches EngineError::NoTextValue
                ||| e matches EngineError::EmptyParagraph
                ||| e matches EngineError::NoParagraphBounds
            },
        },
{
    match peek_paragraph_ax(probe) {
        Ok(result) => normalize_paragraph(result),
        Err(e) => Err(e),
    }
}

/// Full capture command with caching: on success the capture supersedes
/// any cached snapshot; on failure the stale capture is dropped.
pub fn capture_and_locate<P: AccessibilityProbe, S: SystemActions>(
    probe: &mut P,
    sys: &mut S,
    store: &mut AppIdentityStore,
    cache: &mut CaptureCache,
) -> (r: Result<CaptureResult, EngineError>)
    requires
        old(cache).wf(),
    ensures
        final(cache).wf(),
        match r {
            Ok(c) => c.wf() && (match final(cache).capture {
                Some(cc) => same_capture(cc, c),
                None => false,
            }) && final(cache).paragraph is None,
            Err(e) => {
                &&& final(cache).capture is None
                &&& *final(store) == *old(store)
                &&& {
                    ||| e matches EngineError::PermissionDenied
                    ||| e matches EngineError::NoFocusedElement
                    ||| e matches EngineError::NoSelection
                }
            },
        },
{
    match capture_and_locate_sync(probe, sys, store) {
        Ok(c) => {
            cache.cache_capture(Some(c.duplicate()));
            Ok(c)
        },
        Err(e) => {
            cache.cache_capture(None);
            Err(e)
        },
    }
}

/// Reopen the panel from the cached capture, without touching the probe.
pub fn open_main_from_cached_selection(cache: &CaptureCache) -> (r: Result<
    CaptureResult,
    EngineError,
>)
    ensures
        match r {
            Ok(c) => match cache.capture {
                Some(cc) => same_capture(c, cc),
                None => false,
            },
            Err(e) => (e matches EngineError::NoCachedSelection) && cache.capture is None,
        },
{
    match cache.get_cached_capture() {
        Some(c) => Ok(c),
        None => Err(EngineError::NoCachedSelection),
    }
}

/// Promote the cached paragraph into a real, visible selection.
///
/// Caches the frontmost application identity for a later replacement
/// (continuing even when none can be identified, as the original
/// application may still accept the selection write), selects the
/// paragraph's exact recorded span in the source element, and establishes
/// the paragraph as the cached capture for the panel to consume.
pub fn select_paragraph_and_open<P: AccessibilityProbe>(
    probe: &mut P,
    store: &mut AppIdentityStore,
    cache: &mut CaptureCache,
    frontmost: Option<String>,
) -> (r: Result<CaptureResult, EngineError>)
    requires
        old(cache).wf(),
    ensures
        final(cache).wf(),
        old(cache).paragraph is None ==> (r matches Err(EngineError::NoCachedParagraph))
            && *final(cache) == *old(cache) && *final(store) == *old(store),
        old(cache).paragraph is Some ==> !(r matches Err(EngineError::NoCachedParagraph)),
        old(cache).paragraph is Some && r is Err ==> *final(cache) == *old(cache),
        old(cache).paragraph is Some ==> match frontmost {
            Some(name) => final(store).stored == Some(name),
            None => *final(store) == *old(store),
        },
        match r {
            Ok(c) => {
                &&& old(cache).paragraph is Some
                &&& (match old(cache).paragraph {
                    Some(p) => c.text@ == p.text@ && c.x == p.x && c.y == p.y && c.width == p.width
                        && c.height == p.height && c.line_start_x == p.line_start_x,
                    None => false,
                })
                &&& (match final(cache).capture {
                    Some(cc) => same_capture(cc, c),
                    None => false,
                })
                &&& final(cache).paragraph is None
            },
            Err(e) => {
                ||| e matches EngineError::NoCachedParagraph
                ||| e matches EngineError::PermissionDenied
                ||| e matches EngineError::NoFocusedElement
                ||| e matches EngineError::SelectionWriteFailed
            },
        },
{
    let para = match cache.get_cached_paragraph() {
        Some(p) => p,
        None => {
            return Err(EngineError::NoCachedParagraph);
        },
    };

    // Cache the frontmost application for a later replacement; when none
    // can be identified the promotion still proceeds.
    let _ = store.cache_frontmost_app_for_replace(frontmost);

    // Select the paragraph's exact span in the source element.
    match select_text_range(probe, para.range_location, para.range_length) {
        Ok(()) => (),
        Err(e) => {
            return Err(e);
        },
    }

    let capture = CaptureResult {
        text: para.text,
        x: para.x,
        y: para.y,
        width: para.width,
        height: para.height,
        line_start_x: para.line_start_x,
    };
    cache.cache_capture(Some(capture.duplicate()));
    Ok(capture)
}

/// Where the main panel opens relative to an anchoring rectangle: above
/// it, or below it when above would leave the screen.
///
/// Returns the panel's top-left corner, in centi-units.
pub fn panel_position(x: i64, y: i64, height: i64) -> (r: (i64, i64))
    requires
        coord_ok(x),
        coord_ok(y),
        coord_ok(height),
    ensures
        r.0 == x,
        ({
            let above = y - PANEL_HEIGHT - PANEL_GAP;
            r.1 == if above < 0 {
                y + height + PANEL_GAP
            } else {
                above
            }
        }),
{
    let above = y - PANEL_HEIGHT - PANEL_GAP;
    let py = if above < 0 {
        y + height + PANEL_GAP
    } else {
        above
    };
    (x, py)
}

/// Height of the main panel, in centi-units (197 logical units).
pub const PANEL_HEIGHT: i64 = 19700;

/// Gap between the panel and the anchoring rectangle, in centi-units.
pub const PANEL_GAP: i64 = 800;

/// Dismiss command: forget the stored application identity, making a
/// subsequent replacement fail with `NoStoredApp` until a new capture or
/// paragraph-selection action stores one.
pub fn dismiss(store: &mut AppIdentityStore)
    ensures
        final(store).stored is None,
{
    store.clear_stored_element();
}

/// Replace-text command: the clipboard round trip of
/// [`crate::replace::replace_via_clipboard`], surfaced verbatim.
pub fn replace_text<S: SystemActions>(
    store: &mut AppIdentityStore,
    sys: &mut S,
    text: &str,
    flow: crate::replace::ReplaceFlow,
) -> (r: Result<(), EngineError>)
    ensures
        r matches Err(EngineError::NoStoredApp) <==> old(store).stored is None,
        r matches Err(EngineError::NoStoredApp) ==> *final(store) == *old(store),
        r matches Err(
            EngineError::ExternalToolFailure(crate::errors::ExternalTool::Clipboard, _),
        ) ==> *final(store) == *old(store),
        r matches Err(
            EngineError::ExternalToolFailure(crate::errors::ExternalTool::AppActivation, _),
        ) ==> *final(store) == *old(store),
        (r is Ok || r matches Err(
            EngineError::ExternalToolFailure(crate::errors::ExternalTool::PasteKeystroke, _),
        )) ==> final(store).stored is None,
        old(store).stored is Some ==> (r is Ok || r matches Err(
            EngineError::ExternalToolFailure(_, _),
        )),
{
    crate::replace::replace_via_clipboard(store, sys, text, flow)
}

} // verus!
