//! Text exchanged with the system helper processes, as UTF-8 bytes.
//!
//! The application name travels in two directions: it arrives as the raw
//! standard output of the identity helper, framed in whitespace, and it is
//! sent back embedded in a quoted script string, where backslashes and
//! double quotes must be escaped. Both computations work on bytes; since
//! the characters involved are ASCII, they never split a multi-byte
//! encoded character.

use vstd::prelude::*;

verus! {

/// How one byte stands inside a quoted script string: backslashes and
/// double quotes gain a preceding backslash, every other byte stands as
/// it is.
pub open spec fn escape_one(b: u8) -> Seq<u8> {
    if b == 0x5C || b == 0x22 {
        seq![0x5Cu8, b]
    } else {
        seq![b]
    }
}

/// A byte sequence with every backslash and double quote escaped.
pub open spec fn escaped_bytes(s: Seq<u8>) -> Seq<u8>
    decreases s.len(),
{
    if s.len() == 0 {
        Seq::empty()
    } else {
        escape_one(s[0]) + escaped_bytes(s.subrange(1, s.len() as int))
    }
}

proof fn lemma_escaped_push(s: Seq<u8>, b: u8)
    ensures
        escaped_bytes(s.push(b)) == escaped_bytes(s) + escape_one(b),
    decreases s.len(),
{
    let t = s.push(b);
    if s.len() == 0 {
        assert(t[0] == b);
        assert(t.subrange(1, t.len() as int) =~= Seq::<u8>::empty());
        assert(escaped_bytes(t.subrange(1, t.len() as int)) == Seq::<u8>::empty());
        assert(escaped_bytes(t) == escape_one(b) + Seq::<u8>::empty());
        assert(escape_one(b) + Seq::<u8>::empty() =~= escaped_bytes(s) + escape_one(b));
    } else {
        let rest = s.subrange(1, s.len() as int);
        lemma_escaped_push(rest, b);
        assert(t[0] == s[0]);
        assert(t.subrange(1, t.len() as int) =~= rest.push(b));
        assert(escaped_bytes(t) == escape_one(s[0]) + (escaped_bytes(rest) + escape_one(b)));
        assert(escape_one(s[0]) + (escaped_bytes(rest) + escape_one(b)) =~= (escape_one(s[0])
            + escaped_bytes(rest)) + escape_one(b));
        assert(escaped_bytes(s) == escape_one(s[0]) + escaped_bytes(rest));
    }
}

/// Escape a name so it can stand inside a quoted script string: every
/// backslash and double quote is preceded by a backslash.
pub fn escape_quoted_arg(raw: &Vec<u8>) -> (r: Vec<u8>)
    ensures
        r@ == escaped_bytes(raw@),
{
    let mut out: Vec<u8> = Vec::new();
    let mut i: usize = 0;
    while i < raw.len()
        invariant
            i <= raw.len(),
            out@ == escaped_bytes(raw@.subrange(0, i as int)),
        decreases raw.len() - i,
    {
        let b = raw[i];
        if b == 0x5C || b == 0x22 {
            out.push(0x5C);
        }
        out.push(b);
        proof {
            lemma_escaped_push(raw@.subrange(0, i as int), b);
            assert(raw@.subrange(0, (i + 1) as int) =~= raw@.subrange(0, i as int).push(b));
            assert(out@ =~= escaped_bytes(raw@.subrange(0, i as int)) + escape_one(b));
        }
        i = i + 1;
    }
    proof {
        assert(raw@.subrange(0, raw.len() as int) =~= raw@);
    }
    out
}

/// ASCII whitespace: the framing the identity helper's output carries
/// around the name (trailing newline, padding).
pub open spec fn ascii_ws(b: u8) -> bool {
    b == 0x20 || b == 0x09 || b == 0x0A || b == 0x0C || b == 0x0D
}

/// Runtime check of [`ascii_ws`].
pub fn is_ascii_ws(b: u8) -> (r: bool)
    ensures
        r == ascii_ws(b),
{
    b == 0x20 || b == 0x09 || b == 0x0A || b == 0x0C || b == 0x0D
}

/// What it means for `[lo, hi)` to be the whitespace-trimmed span of `s`:
/// non-empty, delimited by non-whitespace bytes, with only whitespace
/// outside it. At most one span satisfies this.
pub open spec fn trimmed_span(s: Seq<u8>, lo: int, hi: int) -> bool {
    &&& 0 <= lo < hi <= s.len()
    &&& !ascii_ws(s[lo])
    &&& !ascii_ws(s[hi - 1])
    &&& forall|j: int| 0 <= j < lo ==> ascii_ws(s[j])
    &&& forall|j: int| hi <= j < s.len() ==> ascii_ws(s[j])
}

/// The application name in the identity helper's raw output: the output
/// trimmed of the whitespace framing, or `None` when nothing but
/// whitespace came back.
pub fn name_from_output(raw: &Vec<u8>) -> (r: Option<Vec<u8>>)
    ensures
        r is None <==> (forall|j: int| 0 <= j < raw@.len() ==> ascii_ws(raw@[j])),
        match r {
            Some(name) => exists|lo: int, hi: int|
                trimmed_span(raw@, lo, hi) && name@ == raw@.subrange(lo, hi),
            None => true,
        },
{
    let mut lo: usize = 0;
    while lo < raw.len() && is_ascii_ws(raw[lo])
        invariant
            lo <= raw.len(),
            forall|j: int| 0 <= j < lo ==> ascii_ws(raw@[j]),
        decreases raw.len() - lo,
    {
        lo = lo + 1;
    }
    if lo == raw.len() {
        return None;
    }
    let mut hi: usize = raw.len();
    while hi > lo + 1 && is_ascii_ws(raw[hi - 1])
        invariant
            lo < hi <= raw.len(),
            forall|j: int| hi <= j < raw@.len() ==> ascii_ws(raw@[j]),
        decreases hi,
    {
        hi = hi - 1;
    }
    // The byte at hi - 1 is not whitespace: either the loop stopped on it,
    // or hi reached lo + 1, whose byte ended the leading scan.

    let mut name: Vec<u8> = Vec::new();
    let mut i: usize = lo;
    while i < hi
        invariant
            lo <= i <= hi <= raw.len(),
            name@ == raw@.subrange(lo as int, i as int),
        decreases hi - i,
    {
        name.push(raw[i]);
        proof {
            assert(name@ =~= raw@.subrange(lo as int, (i + 1) as int));
        }
        i = i + 1;
    }
    proof {
        assert(trimmed_span(raw@, lo as int, hi as int));
    }
    Some(name)
}

} // verus!
