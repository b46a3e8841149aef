//! Line-anchor resolution: the leftmost x-coordinate of the caret's
//! visually wrapped line.
//!
//! Many elements wrap text without inserting a newline character, so the
//! only way to recover the visual line start is to probe bounds backward
//! one UTF-16 code unit at a time until the reported y leaves the caret's
//! visual row. The walk is bounded so that it terminates even on an
//! element that never changes y.

use vstd::prelude::*;

use crate::geom::CENTI;
use crate::geom::clamp_coord;
use crate::geom::coord_ok;
use crate::geom::exceeds_tol;
use crate::probe::AccessibilityProbe;

verus! {

/// Upper bound on how many preceding offsets the backward walk inspects.
pub const MAX_BACKTRACK_STEPS: usize = 512;

/// Where the backward walk stopped, and how many preceding offsets it
/// probed on the way.
#[derive(Clone, Copy, Debug, PartialEq, Eq, Structural)]
pub struct WalkOutcome {
    /// The offset judged to start the visual line.
    pub offset: usize,
    /// How many preceding offsets were probed.
    pub probes: usize,
}

/// Walk backward from `start` while the preceding code unit still lies on
/// the visual row at `line_y` (within a one-unit tolerance that absorbs
/// sub-pixel rounding). Stops at the text start, at the first offset whose
/// bounds the surface cannot report, at the first offset on another row,
/// or after [`MAX_BACKTRACK_STEPS`] steps.
///
/// The outcome records how many preceding offsets were probed: never more
/// than [`MAX_BACKTRACK_STEPS`], so the walk always terminates.
pub fn backward_walk<P: AccessibilityProbe>(
    probe: &mut P,
    el: &P::Element,
    start: usize,
    line_y: i64,
) -> (r: WalkOutcome)
    requires
        coord_ok(line_y),
    ensures
        r.offset <= start,
        r.probes <= MAX_BACKTRACK_STEPS,
        start - r.offset <= r.probes,
{
    let mut cursor: usize = start;
    let mut steps: usize = 0;
    let mut probes: usize = 0;
    while cursor > 0 && steps < MAX_BACKTRACK_STEPS
        invariant_except_break
            cursor <= start,
            steps <= MAX_BACKTRACK_STEPS,
            probes == steps,
            start - cursor == steps,
            coord_ok(line_y),
        ensures
            cursor <= start,
            probes <= MAX_BACKTRACK_STEPS,
            start - cursor <= probes,
        decreases MAX_BACKTRACK_STEPS - steps,
    {
        let prev_cursor = cursor - 1;
        probes = probes + 1;
        let prev_bounds = match probe.bounds_for_range(el, prev_cursor, 0) {
            Some(b) => b.sanitized(),
            None => {
                break ;
            },
        };
        if exceeds_tol(prev_bounds.y, line_y, CENTI) {
            // The previous offset sits on a different visual row, so the
            // current offset is the line start.
            break ;
        }
        cursor = prev_cursor;
        steps = steps + 1;
    }
    WalkOutcome { offset: cursor, probes }
}

/// Find the leftmost x of the caret's visually wrapped line, in
/// centi-units.
///
/// Probes the zero-length range at the caret (falling back one code unit
/// for elements that cannot report bounds at the end of the text), walks
/// backward within the caret's visual row, and reports the x of the bounds
/// at the final offset. Returns `None` when the surface cannot supply the
/// needed range, text or bounds.
pub fn get_current_line_start_x<P: AccessibilityProbe>(probe: &mut P, el: &P::Element) -> (r:
    Option<i64>)
    ensures
        match r {
            Some(x) => coord_ok(x),
            None => true,
        },
{
    let range = match probe.selection_range(el) {
        Some(range) => range,
        None => {
            return None;
        },
    };
    let full = match probe.full_text(el) {
        Some(t) => t,
        None => {
            return None;
        },
    };
    let text_len = full.len();
    let cursor: usize = if range.location < text_len {
        range.location
    } else {
        text_len
    };

    // Some elements cannot return bounds for the exact caret offset (for
    // example, a caret at the end of the text). Step back one code unit as
    // a fallback for the row probe only; the walk still starts at the
    // caret.
    let current_bounds = match probe.bounds_for_range(el, cursor, 0) {
        Some(b) => b.sanitized(),
        None => {
            if cursor > 0 {
                match probe.bounds_for_range(el, cursor - 1, 0) {
                    Some(b) => b.sanitized(),
                    None => {
                        return None;
                    },
                }
            } else {
                return None;
            }
        },
    };

    let walk = backward_walk(probe, el, cursor, current_bounds.y);
    match probe.bounds_for_range(el, walk.offset, 0) {
        Some(b) => Some(clamp_coord(b.x)),
        None => None,
    }
}

} // verus!
