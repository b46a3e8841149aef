//! Text as UTF-16 code units, the indexing unit of the accessibility
//! surface.

use vstd::prelude::*;

verus! {

/// The newline code unit that delimits paragraphs.
pub open spec fn is_newline(u: u16) -> bool {
    u == 10u16
}

/// Whether a UTF-16 code unit is a whitespace character.
///
/// This is the Unicode `White_Space` set restricted to the basic
/// multilingual plane; surrogate code units are never whitespace, so a
/// UTF-16 sequence consists of whitespace characters exactly when every
/// unit satisfies this predicate.
pub open spec fn ws_unit(u: u16) -> bool {
    ||| 0x09 <= u <= 0x0D
    ||| u == 0x20
    ||| u == 0x85
    ||| u == 0xA0
    ||| u == 0x1680
    ||| 0x2000 <= u <= 0x200A
    ||| u == 0x2028
    ||| u == 0x2029
    ||| u == 0x202F
    ||| u == 0x205F
    ||| u == 0x3000
}

/// Whether a text is empty or consists of whitespace only.
pub open spec fn blank16(s: Seq<u16>) -> bool {
    forall|i: int| 0 <= i < s.len() ==> ws_unit(s[i])
}

/// Runtime check of [`ws_unit`].
pub fn is_ws_unit(u: u16) -> (r: bool)
    ensures
        r == ws_unit(u),
{
    (0x09 <= u && u <= 0x0D) || u == 0x20 || u == 0x85 || u == 0xA0 || u == 0x1680 || (0x2000 <= u
        && u <= 0x200A) || u == 0x2028 || u == 0x2029 || u == 0x202F || u == 0x205F || u == 0x3000
}

/// Runtime check of [`is_newline`].
pub fn is_newline_unit(u: u16) -> (r: bool)
    ensures
        r == is_newline(u),
{
    u == 10u16
}

/// Whether the text is empty or whitespace-only.
pub fn is_blank(text: &Vec<u16>) -> (r: bool)
    ensures
        r == blank16(text@),
{
    let mut i: usize = 0;
    while i < text.len()
        invariant
            i <= text.len(),
            forall|j: int| 0 <= j < i ==> ws_unit(text@[j]),
        decreases text.len() - i,
    {
        if !is_ws_unit(text[i]) {
            return false;
        }
        i = i + 1;
    }
    true
}

/// Copy the code units in `[start, end)` out of `text`.
pub fn copy_range(text: &Vec<u16>, start: usize, end: usize) -> (r: Vec<u16>)
    requires
        start <= end <= text.len(),
    ensures
        r@ == text@.subrange(start as int, end as int),
{
    let mut out: Vec<u16> = Vec::new();
    let mut i: usize = start;
    while i < end
        invariant
            start <= i <= end <= text.len(),
            out@ == text@.subrange(start as int, i as int),
        decreases end - i,
    {
        out.push(text[i]);
        proof {
            assert(out@ =~= text@.subrange(start as int, (i + 1) as int));
        }
        i = i + 1;
    }
    out
}

} // verus!
