//! Screen-space geometry in integer centi-units.
//!
//! One logical unit (pixel) is 100 centi-units. All coordinates entering the
//! engine from the platform layer are clamped into a generous representable
//! window so that every later comparison and offset computation is free of
//! overflow.

use vstd::prelude::*;

verus! {

/// Centi-units per logical unit.
pub const CENTI: i64 = 100;

/// Half a logical unit: the jitter tolerance for geometry comparisons.
pub const HALF_UNIT: i64 = 50;

/// All coordinates handled by the engine are clamped into
/// `[-COORD_LIMIT, COORD_LIMIT]` on entry. The window is ten billion logical
/// units wide, far beyond any screen, so clamping never changes a value that
/// a real accessibility surface reports.
pub const COORD_LIMIT: i64 = 1_000_000_000_000;

/// A coordinate that has passed through [`clamp_coord`].
pub open spec fn coord_ok(v: i64) -> bool {
    -COORD_LIMIT <= v <= COORD_LIMIT
}

/// The clamp applied to every coordinate that enters the engine.
pub open spec fn clamp_coord_spec(v: i64) -> int {
    vstd::math::max(-(COORD_LIMIT as int), vstd::math::min(COORD_LIMIT as int, v as int))
}

/// Clamp a raw platform coordinate into the representable window.
pub fn clamp_coord(v: i64) -> (r: i64)
    ensures
        coord_ok(r),
        coord_ok(v) ==> r == v,
        r as int == clamp_coord_spec(v),
{
    if v < -COORD_LIMIT {
        -COORD_LIMIT
    } else if v > COORD_LIMIT {
        COORD_LIMIT
    } else {
        v
    }
}

/// Whether `a` and `b` differ by more than `tol` centi-units.
pub open spec fn beyond_tol(a: i64, b: i64, tol: i64) -> bool {
    a - b > tol || b - a > tol
}

/// Runtime check of [`beyond_tol`].
pub fn exceeds_tol(a: i64, b: i64, tol: i64) -> (r: bool)
    requires
        coord_ok(a),
        coord_ok(b),
        0 <= tol <= COORD_LIMIT,
    ensures
        r == beyond_tol(a, b, tol),
{
    if a >= b {
        a - b > tol
    } else {
        b - a > tol
    }
}

/// Screen-space rectangle reported for a text range.
///
/// A degenerate range (for example a caret) reports zero width, so a width
/// above one logical unit is the sentinel for "usable" bounds.
#[derive(Clone, Copy, Debug, PartialEq, Eq, Structural)]
pub struct SelectionBounds {
    pub x: i64,
    pub y: i64,
    pub width: i64,
    pub height: i64,
}

impl SelectionBounds {
    /// Every field clamped into the representable window.
    pub open spec fn wf(self) -> bool {
        coord_ok(self.x) && coord_ok(self.y) && coord_ok(self.width) && coord_ok(self.height)
    }

    /// The sentinel for bounds that can anchor an overlay: wider than one
    /// logical unit, since degenerate ranges report zero width.
    pub open spec fn usable(self) -> bool {
        self.width > CENTI
    }

    /// The analogous sentinel for a paragraph rectangle, which is judged by
    /// its height: a collapsed rectangle cannot anchor the indicator.
    pub open spec fn usable_height(self) -> bool {
        self.height > CENTI
    }

    /// Clamp every field into the representable window.
    pub fn sanitized(self) -> (r: Self)
        ensures
            r.wf(),
            self.wf() ==> r == self,
    {
        SelectionBounds {
            x: clamp_coord(self.x),
            y: clamp_coord(self.y),
            width: clamp_coord(self.width),
            height: clamp_coord(self.height),
        }
    }

    /// Runtime check of [`SelectionBounds::usable`].
    pub fn is_usable(&self) -> (r: bool)
        ensures
            r == self.usable(),
    {
        self.width > CENTI
    }

    /// Runtime check of [`SelectionBounds::usable_height`].
    pub fn is_usable_height(&self) -> (r: bool)
        ensures
            r == self.usable_height(),
    {
        self.height > CENTI
    }
}

} // verus!
