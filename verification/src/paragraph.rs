//! Paragraph boundary scanning around a caret.
//!
//! Given the focused element's full text as UTF-16 code units and a caret
//! offset, the scanner finds the enclosing newline-delimited paragraph: the
//! maximal substring around the caret that contains no newline.

use vstd::prelude::*;

use crate::errors::EngineError;
use crate::geom::SelectionBounds;
use crate::geom::clamp_coord;
use crate::text16::blank16;
use crate::text16::copy_range;
use crate::text16::is_blank;
use crate::text16::is_newline;
use crate::text16::is_newline_unit;
use crate::probe::AccessibilityProbe;

verus! {

/// The start of the paragraph that contains offset `c`: the smallest
/// offset reachable from `c` by walking backward without crossing a
/// newline.
pub open spec fn para_start_of(t: Seq<u16>, c: int) -> int
    decreases c,
{
    if c <= 0 {
        0
    } else if is_newline(t[c - 1]) {
        c
    } else {
        para_start_of(t, c - 1)
    }
}

/// The end of the paragraph that contains offset `c`: the largest offset
/// reachable from `c` by walking forward without crossing a newline.
pub open spec fn para_end_of(t: Seq<u16>, c: int) -> int
    decreases t.len() - c,
{
    if c >= t.len() {
        t.len() as int
    } else if is_newline(t[c]) {
        c
    } else {
        para_end_of(t, c + 1)
    }
}

/// The paragraph of `t` around offset `c`.
pub open spec fn paragraph_at(t: Seq<u16>, c: int) -> Seq<u16> {
    t.subrange(para_start_of(t, c), para_end_of(t, c))
}

/// What it means for `[start, end)` to be the maximal newline-free span of
/// `t` that contains position `c`: it encloses `c`, carries no newline, and
/// is delimited on both sides by a newline or a text boundary.
pub open spec fn para_bounds_ok(t: Seq<u16>, c: int, start: int, end: int) -> bool {
    &&& 0 <= start <= c <= end <= t.len()
    &&& start == 0 || is_newline(t[start - 1])
    &&& end == t.len() || is_newline(t[end])
    &&& forall|i: int| start <= i < end ==> !is_newline(t[i])
}

/// The recursive boundary definitions produce exactly the maximal
/// newline-free span around `c`.
pub proof fn lemma_paragraph_bounds(t: Seq<u16>, c: int)
    requires
        0 <= c <= t.len(),
    ensures
        para_bounds_ok(t, c, para_start_of(t, c), para_end_of(t, c)),
    decreases t.len(),
{
    lemma_para_start(t, c);
    lemma_para_end(t, c);
}

proof fn lemma_para_start(t: Seq<u16>, c: int)
    requires
        0 <= c <= t.len(),
    ensures
        0 <= para_start_of(t, c) <= c,
        para_start_of(t, c) == 0 || is_newline(t[para_start_of(t, c) - 1]),
        forall|i: int| para_start_of(t, c) <= i < c ==> !is_newline(t[i]),
    decreases c,
{
    if c > 0 && !is_newline(t[c - 1]) {
        lemma_para_start(t, c - 1);
    }
}

proof fn lemma_para_end(t: Seq<u16>, c: int)
    requires
        0 <= c <= t.len(),
    ensures
        c <= para_end_of(t, c) <= t.len(),
        para_end_of(t, c) == t.len() || is_newline(t[para_end_of(t, c)]),
        forall|i: int| c <= i < para_end_of(t, c) ==> !is_newline(t[i]),
    decreases t.len() - c,
{
    if c < t.len() && !is_newline(t[c]) {
        lemma_para_end(t, c + 1);
    }
}

/// There is only one maximal newline-free span around a given position, so
/// the pair `(para_start_of, para_end_of)` is the unique answer admitted by
/// [`para_bounds_ok`].
pub proof fn lemma_paragraph_unique(t: Seq<u16>, c: int, s1: int, e1: int, s2: int, e2: int)
    requires
        para_bounds_ok(t, c, s1, e1),
        para_bounds_ok(t, c, s2, e2),
    ensures
        s1 == s2,
        e1 == e2,
{
    if s1 < s2 {
        assert(!is_newline(t[s2 - 1]));
    }
    if s2 < s1 {
        assert(!is_newline(t[s1 - 1]));
    }
    if e1 < e2 {
        assert(!is_newline(t[e1]));
    }
    if e2 < e1 {
        assert(!is_newline(t[e2]));
    }
}

/// A paragraph span in UTF-16 code-unit offsets into the full text.
#[derive(Clone, Copy, Debug, PartialEq, Eq, Structural)]
pub struct ParaSpan {
    /// Offset of the first code unit of the paragraph.
    pub start: usize,
    /// Offset one past the last code unit of the paragraph.
    pub end: usize,
}

/// Find the newline-delimited paragraph around the caret.
///
/// Returns the maximal newline-free span of `text` containing position
/// `caret`, and fails with `EmptyParagraph` exactly when that span is empty
/// or whitespace-only.
pub fn scan_paragraph(text: &Vec<u16>, caret: usize) -> (r: Result<ParaSpan, EngineError>)
    requires
        caret <= text.len(),
    ensures
        match r {
            Ok(span) => {
                &&& span.start == para_start_of(text@, caret as int)
                &&& span.end == para_end_of(text@, caret as int)
                &&& para_bounds_ok(text@, caret as int, span.start as int, span.end as int)
                &&& span.start < span.end
                &&& !blank16(text@.subrange(span.start as int, span.end as int))
            },
            Err(e) => e matches EngineError::EmptyParagraph,
        },
        r is Err <==> blank16(paragraph_at(text@, caret as int)),
{
    proof {
        lemma_paragraph_bounds(text@, caret as int);
    }
    let ghost t = text@;
    let ghost c = caret as int;

    // Scan backward for the paragraph start: just after a newline, or the
    // start of the text.
    let mut start: usize = caret;
    while start > 0 && !is_newline_unit(text[start - 1])
        invariant
            0 <= start <= caret <= text.len(),
            t == text@,
            c == caret as int,
            para_start_of(t, c) == para_start_of(t, start as int),
        decreases start,
    {
        start = start - 1;
    }
    assert(start as int == para_start_of(t, c));

    // Scan forward for the paragraph end: at a newline, or the end of the
    // text.
    let mut end: usize = caret;
    while end < text.len() && !is_newline_unit(text[end])
        invariant
            caret <= end <= text.len(),
            t == text@,
            c == caret as int,
            para_end_of(t, c) == para_end_of(t, end as int),
        decreases text.len() - end,
    {
        end = end + 1;
    }
    assert(end as int == para_end_of(t, c));

    if start == end {
        assert(paragraph_at(t, c).len() == 0);
        return Err(EngineError::EmptyParagraph);
    }
    let body = copy_range(text, start, end);
    if is_blank(&body) {
        return Err(EngineError::EmptyParagraph);
    }
    Ok(ParaSpan { start, end })
}

/// Detect the paragraph around the current caret position.
///
/// Operates only when the element has a caret and no selection — a
/// non-empty selection fails with `HasSelection` — and finds the maximal
/// newline-free span of the element's full text around the caret, clamped
/// to the text. The snapshot records the span's UTF-16 offsets so the
/// paragraph can later be re-selected exactly, together with whatever
/// geometry the surface reports for it.
pub fn peek_paragraph_ax<P: AccessibilityProbe>(probe: &mut P) -> (r: Result<
    ParagraphResult,
    EngineError,
>)
    ensures
        match r {
            Ok(p) => p.wf(),
            Err(e) => {
                ||| e matches EngineError::PermissionDenied
                ||| e matches EngineError::NoFocusedElement
                ||| e matches EngineError::NoTextRange
                ||| e matches EngineError::HasSelection
                ||| e matches EngineError::NoTextValue
                ||| e matches EngineError::EmptyParagraph
            },
        },
{
    if !probe.is_trusted() {
        return Err(EngineError::PermissionDenied);
    }
    let el = match probe.focused_element() {
        Some(el) => el,
        None => {
            return Err(EngineError::NoFocusedElement);
        },
    };

    // A caret is a zero-length range; anything longer is a real selection
    // and belongs to the selection path.
    let range = match probe.selection_range(&el) {
        Some(range) => range,
        None => {
            return Err(EngineError::NoTextRange);
        },
    };
    if range.length != 0 {
        return Err(EngineError::HasSelection);
    }

    let full = match probe.full_text(&el) {
        Some(t) => t,
        None => {
            return Err(EngineError::NoTextValue);
        },
    };
    if full.len() == 0 {
        return Err(EngineError::NoTextValue);
    }
    let caret: usize = if range.location < full.len() {
        range.location
    } else {
        full.len()
    };

    let span = match scan_paragraph(&full, caret) {
        Ok(span) => span,
        Err(e) => {
            return Err(e);
        },
    };

    // Bounds for the whole paragraph, and a zero-length bounds query at its
    // start for the line anchor: a paragraph start is definitionally a
    // line start, so no backward walk is needed.
    let raw_bounds = probe.bounds_for_range(&el, span.start, span.end - span.start);
    let raw_line_start = probe.bounds_for_range(&el, span.start, 0);
    Ok(assemble_paragraph(&full, span, raw_bounds, raw_line_start))
}

/// Snapshot of a caret-only paragraph.
#[derive(Clone, Debug)]
pub struct ParagraphResult {
    /// The paragraph text, as UTF-16 code units.
    pub text: Vec<u16>,
    /// Visual bounds of the paragraph, when the surface reports them.
    pub bounds: Option<SelectionBounds>,
    /// Leftmost x of the first line of the paragraph, in centi-units.
    pub line_start_x: Option<i64>,
    /// UTF-16 offset of the paragraph start within the element's full text.
    pub range_location: usize,
    /// UTF-16 length of the paragraph.
    pub range_length: usize,
}

impl ParagraphResult {
    /// The snapshot's internal consistency: the text is the recorded span,
    /// it is non-blank and newline-free, and all geometry is clamped.
    pub open spec fn wf(self) -> bool {
        &&& self.range_length == self.text@.len()
        &&& self.range_length > 0
        &&& !blank16(self.text@)
        &&& forall|i: int| 0 <= i < self.text@.len() ==> !is_newline(self.text@[i])
        &&& self.range_location + self.range_length <= usize::MAX
        &&& match self.bounds {
            Some(b) => b.wf(),
            None => true,
        }
        &&& match self.line_start_x {
            Some(x) => crate::geom::coord_ok(x),
            None => true,
        }
    }
}

/// Assemble a paragraph snapshot from a scanned span and the geometry the
/// surface reported for it.
///
/// `raw_bounds` and `raw_line_start` are passed through exactly as the
/// surface answered (present or absent), with their coordinates clamped.
pub fn assemble_paragraph(
    text: &Vec<u16>,
    span: ParaSpan,
    raw_bounds: Option<SelectionBounds>,
    raw_line_start: Option<SelectionBounds>,
) -> (r: ParagraphResult)
    requires
        span.start <= span.end <= text.len(),
        span.start < span.end,
        !blank16(text@.subrange(span.start as int, span.end as int)),
        forall|i: int|
            span.start <= i < span.end ==> !is_newline(text@[i]),
    ensures
        r.wf(),
        r.text@ == text@.subrange(span.start as int, span.end as int),
        r.range_location == span.start,
        r.range_length == span.end - span.start,
        r.bounds is Some <==> raw_bounds is Some,
        r.line_start_x is Some <==> raw_line_start is Some,
        match (r.line_start_x, raw_line_start) {
            (Some(x), Some(b)) => x as int == crate::geom::clamp_coord_spec(b.x),
            _ => true,
        },
{
    let body = copy_range(text, span.start, span.end);
    let bounds = match raw_bounds {
        Some(b) => Some(b.sanitized()),
        None => None,
    };
    let line_start_x = match raw_line_start {
        Some(b) => Some(clamp_coord(b.x)),
        None => None,
    };
    ParagraphResult {
        text: body,
        bounds,
        line_start_x,
        range_location: span.start,
        range_length: span.end - span.start,
    }
}

} // verus!
