//! The selection tracker: a state machine driven by a fixed-period poll.
//!
//! Every tick the driver evaluates the guards, then attempts a lightweight
//! selection peek, falling back to a paragraph peek, falling back to
//! hiding the indicator. The decisions — whether the application identity
//! must be re-cached, whether the indicator must be repositioned, and
//! which mode-change event to emit — are all made here, against pinned
//! snapshots of the last observed geometry, so that noise in repeated
//! platform queries never produces visible jitter.

use vstd::prelude::*;

use crate::commands::CaptureCache;
use crate::commands::CaptureResult;
use crate::commands::ParagraphInfo;
use crate::commands::same_capture;
use crate::commands::same_paragraph;
use crate::geom::HALF_UNIT;
use crate::geom::beyond_tol;
use crate::geom::coord_ok;
use crate::geom::exceeds_tol;

verus! {

/// Poll period of the tracker's background loop, in milliseconds.
pub const POLL_PERIOD_MS: u64 = 350;

/// Indicator width when a selection is shown, in centi-units (16 logical
/// units).
pub const TRIGGER_SELECTION_WIDTH: i64 = 1600;

/// Indicator width when a caret-only paragraph is shown: a thin line, in
/// centi-units (4 logical units).
pub const TRIGGER_PARAGRAPH_WIDTH: i64 = 400;

/// Minimum indicator height, in centi-units (16 logical units).
pub const TRIGGER_MIN_HEIGHT: i64 = 1600;

/// Gap between the indicator and the line anchor, in centi-units (12
/// logical units).
pub const TRIGGER_WINDOW_GAP: i64 = 1200;

/// Minimum distance kept from the screen edge, in centi-units (4 logical
/// units).
pub const SCREEN_EDGE_PADDING: i64 = 400;

/// The two modes the indicator can be in; a hidden indicator is the
/// absence of a mode.
#[derive(Clone, Copy, Debug, PartialEq, Eq, Structural)]
pub enum TriggerMode {
    /// The user has selected text.
    Selection,
    /// The caret sits in a paragraph, with no selection.
    Paragraph,
}

/// The last observed selection, pinned for debouncing.
#[derive(Clone, Copy, Debug, PartialEq, Eq, Structural)]
pub struct PinnedSelection {
    /// Length of the selected text, in UTF-16 code units.
    pub text_len: usize,
    /// Left edge of the selection rectangle.
    pub x: i64,
    /// Top edge of the selection rectangle.
    pub y: i64,
    /// Width of the selection rectangle.
    pub width: i64,
    /// Height of the selection rectangle.
    pub height: i64,
    /// Horizontal anchor: the resolved line start, or the rectangle's
    /// left edge.
    pub anchor_x: i64,
}

/// The indicator's last applied rectangle, pinned for debouncing.
#[derive(Clone, Copy, Debug, PartialEq, Eq, Structural)]
pub struct PinnedButton {
    /// Left edge of the indicator.
    pub x: i64,
    /// Top edge of the indicator.
    pub y: i64,
    /// Height of the indicator.
    pub height: i64,
}

/// The indicator rectangle to apply to the screen.
#[derive(Clone, Copy, Debug, PartialEq, Eq, Structural)]
pub struct TriggerRect {
    /// Left edge, in centi-units.
    pub x: i64,
    /// Top edge, in centi-units.
    pub y: i64,
    /// Width, in centi-units.
    pub width: i64,
    /// Height, in centi-units.
    pub height: i64,
}

/// The tracker's own state between ticks.
pub struct TrackerState {
    /// The last observed selection, if the previous tick showed one.
    pub pinned_selection: Option<PinnedSelection>,
    /// The indicator rectangle last applied, if any.
    pub pinned_button: Option<PinnedButton>,
    /// The mode last emitted to the indicator, if it is shown.
    pub current_mode: Option<TriggerMode>,
}

impl TrackerState {
    /// Everything pinned carries clamped coordinates.
    pub open spec fn wf(self) -> bool {
        &&& match self.pinned_selection {
            Some(p) => coord_ok(p.x) && coord_ok(p.y) && coord_ok(p.width) && coord_ok(p.height)
                && coord_ok(p.anchor_x),
            None => true,
        }
        &&& match self.pinned_button {
            Some(p) => coord_ok(p.x) && coord_ok(p.y) && coord_ok(p.height),
            None => true,
        }
    }
}

/// The horizontal anchor of a capture: the resolved line start, or the
/// rectangle's left edge when no line start resolved.
pub open spec fn anchor_of(cap: CaptureResult) -> i64 {
    match cap.line_start_x {
        Some(a) => a,
        None => cap.x,
    }
}

/// The pinned snapshot a capture produces.
pub open spec fn pin_of(cap: CaptureResult) -> PinnedSelection {
    PinnedSelection {
        text_len: cap.text@.len() as usize,
        x: cap.x,
        y: cap.y,
        width: cap.width,
        height: cap.height,
        anchor_x: anchor_of(cap),
    }
}

/// Whether a capture differs from the pinned selection beyond tolerance:
/// the text length differs, or any of x, y, width, height or the
/// horizontal anchor moved by more than half a logical unit. A tick with
/// nothing pinned always counts as changed.
pub open spec fn selection_changed(prev: Option<PinnedSelection>, cap: CaptureResult) -> bool {
    match prev {
        Some(p) => {
            ||| p.text_len != cap.text@.len()
            ||| beyond_tol(p.x, cap.x, HALF_UNIT)
            ||| beyond_tol(p.y, cap.y, HALF_UNIT)
            ||| beyond_tol(p.width, cap.width, HALF_UNIT)
            ||| beyond_tol(p.height, cap.height, HALF_UNIT)
            ||| beyond_tol(p.anchor_x, anchor_of(cap), HALF_UNIT)
        },
        None => true,
    }
}

/// Whether an indicator rectangle differs from the pinned one beyond
/// tolerance in position or height.
pub open spec fn button_changed(prev: Option<PinnedButton>, rect: TriggerRect) -> bool {
    match prev {
        Some(p) => {
            ||| beyond_tol(p.x, rect.x, HALF_UNIT)
            ||| beyond_tol(p.y, rect.y, HALF_UNIT)
            ||| beyond_tol(p.height, rect.height, HALF_UNIT)
        },
        None => true,
    }
}

/// The indicator rectangle for an anchoring rectangle: placed left of the
/// horizontal anchor by its own width plus a gap, vertically centered on
/// the anchoring rectangle but at least its minimum height, and kept off
/// the screen edge.
pub open spec fn spec_indicator_rect(
    y: int,
    height: int,
    anchor_x: int,
    trigger_width: int,
) -> TriggerRect {
    let trigger_height = vstd::math::max(height, TRIGGER_MIN_HEIGHT as int);
    let raw_x = anchor_x - trigger_width - TRIGGER_WINDOW_GAP;
    let centered_y = if height >= TRIGGER_MIN_HEIGHT {
        y
    } else {
        y - (TRIGGER_MIN_HEIGHT - height) / 2
    };
    TriggerRect {
        x: vstd::math::max(raw_x, SCREEN_EDGE_PADDING as int) as i64,
        y: vstd::math::max(centered_y, SCREEN_EDGE_PADDING as int) as i64,
        width: trigger_width as i64,
        height: trigger_height as i64,
    }
}

/// Compute [`spec_indicator_rect`].
pub fn indicator_rect(y: i64, height: i64, anchor_x: i64, trigger_width: i64) -> (r: TriggerRect)
    requires
        coord_ok(y),
        coord_ok(height),
        coord_ok(anchor_x),
        0 <= trigger_width <= TRIGGER_SELECTION_WIDTH,
    ensures
        r == spec_indicator_rect(y as int, height as int, anchor_x as int, trigger_width as int),
        coord_ok(r.x),
        coord_ok(r.y),
        coord_ok(r.width),
        coord_ok(r.height),
{
    let trigger_height: i64 = if height >= TRIGGER_MIN_HEIGHT {
        height
    } else {
        TRIGGER_MIN_HEIGHT
    };
    let raw_x = anchor_x - trigger_width - TRIGGER_WINDOW_GAP;
    let x: i64 = if raw_x >= SCREEN_EDGE_PADDING {
        raw_x
    } else {
        SCREEN_EDGE_PADDING
    };
    let centered_y: i64 = if height >= TRIGGER_MIN_HEIGHT {
        y
    } else {
        y - (TRIGGER_MIN_HEIGHT - height) / 2
    };
    let y_out: i64 = if centered_y >= SCREEN_EDGE_PADDING {
        centered_y
    } else {
        SCREEN_EDGE_PADDING
    };
    TriggerRect { x, y: y_out, width: trigger_width, height: trigger_height }
}

/// What the guard evaluation decided for this tick.
#[derive(Clone, Copy, Debug, PartialEq, Eq, Structural)]
pub enum GuardOutcome {
    /// A panel or settings surface owns the screen: hide the indicator
    /// and forget all pinned state for this tick.
    SuppressAndHide,
    /// The indicator itself has input focus: leave everything as it is.
    SkipTick,
    /// Proceed with the selection peek.
    Proceed,
}

/// What the selection branch of a tick asks the driver to do.
#[derive(Clone, Copy, Debug, PartialEq, Eq, Structural)]
pub struct SelectionTickActions {
    /// Re-query and cache the application identity. Done only when the
    /// selection changed beyond tolerance, to bound how often the
    /// expensive identity query runs.
    pub refresh_app_identity: bool,
    /// Emit the transition into selection mode.
    pub emit_selection_mode: bool,
    /// Apply this rectangle to the indicator; absent when the geometry is
    /// within tolerance of what is already applied.
    pub reposition: Option<TriggerRect>,
}

/// What the paragraph branch of a tick asks the driver to do.
#[derive(Clone, Copy, Debug, PartialEq, Eq, Structural)]
pub struct ParagraphTickActions {
    /// Emit the transition into paragraph mode.
    pub emit_paragraph_mode: bool,
    /// Apply this rectangle to the indicator; absent when the geometry is
    /// within tolerance of what is already applied.
    pub reposition: Option<TriggerRect>,
}

impl TrackerState {
    /// A tracker that has observed nothing: indicator hidden.
    pub fn new() -> (s: Self)
        ensures
            s.wf(),
            s.pinned_selection is None,
            s.pinned_button is None,
            s.current_mode is None,
    {
        TrackerState { pinned_selection: None, pinned_button: None, current_mode: None }
    }

    /// Evaluate this tick's guards: a visible panel or focused settings
    /// surface suppresses all activity and forgets the pinned state, and
    /// an indicator that itself holds input focus freezes the tick.
    pub fn tick_guards(
        &mut self,
        main_visible: bool,
        settings_focused: bool,
        trigger_focused: bool,
    ) -> (r: GuardOutcome)
        requires
            old(self).wf(),
        ensures
            final(self).wf(),
            (main_visible || settings_focused) ==> r == GuardOutcome::SuppressAndHide
                && final(self).pinned_selection is None && final(self).pinned_button is None
                && final(self).current_mode is None,
            (!main_visible && !settings_focused && trigger_focused) ==> r == GuardOutcome::SkipTick
                && *final(self) == *old(self),
            (!main_visible && !settings_focused && !trigger_focused) ==> r == GuardOutcome::Proceed
                && *final(self) == *old(self),
    {
        if main_visible || settings_focused {
            self.pinned_selection = None;
            self.pinned_button = None;
            self.current_mode = None;
            GuardOutcome::SuppressAndHide
        } else if trigger_focused {
            GuardOutcome::SkipTick
        } else {
            GuardOutcome::Proceed
        }
    }

    /// The selection branch: the peek succeeded.
    ///
    /// The application identity is re-cached exactly when the selection
    /// changed beyond tolerance, the indicator is repositioned exactly
    /// when its rectangle moved beyond tolerance, and the mode event is
    /// emitted exactly on the transition into selection mode. The capture
    /// supersedes any cached paragraph.
    pub fn tick_selection(&mut self, cache: &mut CaptureCache, cap: CaptureResult) -> (r:
        SelectionTickActions)
        requires
            old(self).wf(),
            cap.wf(),
            old(cache).wf(),
        ensures
            final(self).wf(),
            final(cache).wf(),
            r.refresh_app_identity == selection_changed(old(self).pinned_selection, cap),
            final(self).pinned_selection == if selection_changed(old(self).pinned_selection, cap) {
                Some(pin_of(cap))
            } else {
                old(self).pinned_selection
            },
            r.emit_selection_mode == (old(self).current_mode != Some(TriggerMode::Selection)),
            final(self).current_mode == Some(TriggerMode::Selection),
            ({
                let rect = spec_indicator_rect(
                    cap.y as int,
                    cap.height as int,
                    anchor_of(cap) as int,
                    TRIGGER_SELECTION_WIDTH as int,
                );
                &&& r.reposition == if button_changed(old(self).pinned_button, rect) {
                    Some(rect)
                } else {
                    None::<TriggerRect>
                }
                &&& final(self).pinned_button == if button_changed(old(self).pinned_button, rect) {
                    Some(PinnedButton { x: rect.x, y: rect.y, height: rect.height })
                } else {
                    old(self).pinned_button
                }
            }),
            match final(cache).capture {
                Some(cc) => same_capture(cc, cap),
                None => false,
            },
            final(cache).paragraph is None,
    {
        let anchor_x = match cap.line_start_x {
            Some(a) => a,
            None => cap.x,
        };
        let rect = indicator_rect(cap.y, cap.height, anchor_x, TRIGGER_SELECTION_WIDTH);

        let changed = match &self.pinned_selection {
            Some(p) => p.text_len != cap.text.len() || exceeds_tol(p.x, cap.x, HALF_UNIT)
                || exceeds_tol(p.y, cap.y, HALF_UNIT) || exceeds_tol(p.width, cap.width, HALF_UNIT)
                || exceeds_tol(p.height, cap.height, HALF_UNIT) || exceeds_tol(
                p.anchor_x,
                anchor_x,
                HALF_UNIT,
            ),
            None => true,
        };
        if changed {
            self.pinned_selection = Some(
                PinnedSelection {
                    text_len: cap.text.len(),
                    x: cap.x,
                    y: cap.y,
                    width: cap.width,
                    height: cap.height,
                    anchor_x,
                },
            );
        }

        let emit = self.current_mode != Some(TriggerMode::Selection);
        self.current_mode = Some(TriggerMode::Selection);

        let moved = match &self.pinned_button {
            Some(p) => exceeds_tol(p.x, rect.x, HALF_UNIT) || exceeds_tol(p.y, rect.y, HALF_UNIT)
                || exceeds_tol(p.height, rect.height, HALF_UNIT),
            None => true,
        };
        let reposition = if moved {
            self.pinned_button = Some(PinnedButton { x: rect.x, y: rect.y, height: rect.height });
            Some(rect)
        } else {
            None
        };

        cache.cache_capture(Some(cap));
        SelectionTickActions { refresh_app_identity: changed, emit_selection_mode: emit, reposition }
    }

    /// The selection peek failed: drop the cached capture and the pinned
    /// selection before the paragraph fallback.
    pub fn tick_selection_failed(&mut self, cache: &mut CaptureCache)
        requires
            old(self).wf(),
            old(cache).wf(),
        ensures
            final(self).wf(),
            final(cache).wf(),
            final(cache).capture is None,
            final(cache).paragraph == old(cache).paragraph,
            final(self).pinned_selection is None,
            final(self).pinned_button == old(self).pinned_button,
            final(self).current_mode == old(self).current_mode,
    {
        cache.cache_capture(None);
        self.pinned_selection = None;
    }

    /// The paragraph branch: the fallback peek succeeded.
    ///
    /// Analogous to the selection branch but with the thin indicator
    /// width, and without the identity refresh: the identity is cached
    /// only when the user promotes the paragraph. The snapshot supersedes
    /// any cached capture.
    pub fn tick_paragraph(&mut self, cache: &mut CaptureCache, para: ParagraphInfo) -> (r:
        ParagraphTickActions)
        requires
            old(self).wf(),
            para.wf(),
            old(cache).wf(),
        ensures
            final(self).wf(),
            final(cache).wf(),
            r.emit_paragraph_mode == (old(self).current_mode != Some(TriggerMode::Paragraph)),
            final(self).current_mode == Some(TriggerMode::Paragraph),
            final(self).pinned_selection == old(self).pinned_selection,
            ({
                let anchor = match para.line_start_x {
                    Some(a) => a as int,
                    None => para.x as int,
                };
                let rect = spec_indicator_rect(
                    para.y as int,
                    para.height as int,
                    anchor,
                    TRIGGER_PARAGRAPH_WIDTH as int,
                );
                &&& r.reposition == if button_changed(old(self).pinned_button, rect) {
                    Some(rect)
                } else {
                    None::<TriggerRect>
                }
                &&& final(self).pinned_button == if button_changed(old(self).pinned_button, rect) {
                    Some(PinnedButton { x: rect.x, y: rect.y, height: rect.height })
                } else {
                    old(self).pinned_button
                }
            }),
            match final(cache).paragraph {
                Some(cp) => same_paragraph(cp, para),
                None => false,
            },
            final(cache).capture is None,
    {
        let anchor_x = match para.line_start_x {
            Some(a) => a,
            None => para.x,
        };
        let rect = indicator_rect(para.y, para.height, anchor_x, TRIGGER_PARAGRAPH_WIDTH);

        let emit = self.current_mode != Some(TriggerMode::Paragraph);
        self.current_mode = Some(TriggerMode::Paragraph);

        let moved = match &self.pinned_button {
            Some(p) => exceeds_tol(p.x, rect.x, HALF_UNIT) || exceeds_tol(p.y, rect.y, HALF_UNIT)
                || exceeds_tol(p.height, rect.height, HALF_UNIT),
            None => true,
        };
        let reposition = if moved {
            self.pinned_button = Some(PinnedButton { x: rect.x, y: rect.y, height: rect.height });
            Some(rect)
        } else {
            None
        };

        cache.cache_paragraph(Some(para));
        ParagraphTickActions { emit_paragraph_mode: emit, reposition }
    }

    /// Neither a selection nor a paragraph resolved: drop the cached
    /// paragraph and all pinned state; the driver hides the indicator.
    pub fn tick_nothing(&mut self, cache: &mut CaptureCache)
        requires
            old(self).wf(),
            old(cache).wf(),
        ensures
            final(self).wf(),
            final(cache).wf(),
            final(cache).paragraph is None,
            final(cache).capture == old(cache).capture,
            final(self).pinned_selection == old(self).pinned_selection,
            final(self).pinned_button is None,
            final(self).current_mode is None,
    {
        cache.cache_paragraph(None);
        self.pinned_button = None;
        self.current_mode = None;
    }
}

} // verus!
