//! Trimming ASCII whitespace from both ends of a run of bytes.
//!
//! A vault's name is stored filled up with spaces; the accounts derived from
//! it are derived from the name without them.

use vstd::prelude::*;
use vstd::slice::slice_subrange;

verus! {

/// Space, tab, line feed, form feed or carriage return.
pub open spec fn is_whitespace(b: u8) -> bool {
    b == 0x20 || b == 0x09 || b == 0x0a || b == 0x0c || b == 0x0d
}

/// The index of the first byte at or after `i` that is no whitespace, or the
/// length where there is none.
pub open spec fn text_start(s: Seq<u8>, i: int) -> int
    decreases s.len() - i,
{
    if i < 0 || i >= s.len() {
        s.len() as int
    } else if !is_whitespace(s[i]) {
        i
    } else {
        text_start(s, i + 1)
    }
}

/// One more than the index of the last byte before `j` that is no
/// whitespace, or zero where there is none.
pub open spec fn text_end(s: Seq<u8>, j: int) -> int
    decreases j,
{
    if j <= 0 || j > s.len() {
        0
    } else if !is_whitespace(s[j - 1]) {
        j
    } else {
        text_end(s, j - 1)
    }
}

/// Where the trimmed bytes begin: at the first byte that is no whitespace,
/// or at zero where every byte is whitespace.
pub open spec fn strip_start(s: Seq<u8>) -> int {
    if text_start(s, 0) == s.len() {
        0
    } else {
        text_start(s, 0)
    }
}

/// Where the trimmed bytes end: behind the last byte that is no whitespace,
/// or at zero where every byte is whitespace.
pub open spec fn strip_end(s: Seq<u8>) -> int {
    text_end(s, s.len() as int)
}

/// The bytes of `s` without the whitespace at its two ends.
pub open spec fn stripped(s: Seq<u8>) -> Seq<u8> {
    s.subrange(strip_start(s), strip_end(s))
}

/// Whether every byte of `s` from `from` up to `to` is whitespace.
pub open spec fn all_whitespace(s: Seq<u8>, from: int, to: int) -> bool {
    forall|k: int| from <= k < to ==> is_whitespace(#[trigger] s[k])
}

/// From `i` up to the first byte that is no whitespace there is only
/// whitespace, and that byte, where there is one, is none.
proof fn lemma_text_start(s: Seq<u8>, i: int)
    requires
        0 <= i <= s.len(),
    ensures
        i <= text_start(s, i) <= s.len(),
        all_whitespace(s, i, text_start(s, i)),
        text_start(s, i) < s.len() ==> !is_whitespace(s[text_start(s, i)]),
    decreases s.len() - i,
{
    if i < s.len() && is_whitespace(s[i]) {
        lemma_text_start(s, i + 1);
    }
}

/// From the last byte that is no whitespace up to `j` there is only
/// whitespace, and that byte, where there is one, is none.
proof fn lemma_text_end(s: Seq<u8>, j: int)
    requires
        0 <= j <= s.len(),
    ensures
        0 <= text_end(s, j) <= j,
        all_whitespace(s, text_end(s, j), j),
        text_end(s, j) > 0 ==> !is_whitespace(s[text_end(s, j) - 1]),
    decreases j,
{
    if j > 0 && is_whitespace(s[j - 1]) {
        lemma_text_end(s, j - 1);
    }
}

/// What trimming keeps and what it drops: the bounds lie in order inside
/// `s`; all that lies outside them is whitespace; what lies inside begins and
/// ends with a byte that is none; and where nothing is kept, the bounds are
/// both zero.
pub proof fn lemma_stripped_is_trimmed(s: Seq<u8>)
    ensures
        0 <= strip_start(s) <= strip_end(s) <= s.len(),
        all_whitespace(s, 0, strip_start(s)),
        all_whitespace(s, strip_end(s), s.len() as int),
        strip_start(s) < strip_end(s) ==> !is_whitespace(s[strip_start(s)]) && !is_whitespace(
            s[strip_end(s) - 1],
        ),
        strip_start(s) == strip_end(s) ==> strip_end(s) == 0 && all_whitespace(
            s,
            0,
            s.len() as int,
        ),
{
    lemma_text_start(s, 0);
    lemma_text_end(s, s.len() as int);
    let first = text_start(s, 0);
    let end = text_end(s, s.len() as int);
    if first < s.len() {
        // the first byte of the text lies before its end
        if end <= first {
            assert(is_whitespace(s[first]));
        }
    } else {
        if end > 0 {
            assert(is_whitespace(s[end - 1]));
        }
    }
}

/// Trimming has one answer: bounds with only whitespace outside them, with a
/// byte that is none at either end inside them, and both zero where nothing
/// lies between them, are the bounds that trimming keeps.
pub proof fn lemma_bounds_are_unique(s: Seq<u8>, from: int, to: int)
    requires
        0 <= from <= to <= s.len(),
        all_whitespace(s, 0, from),
        all_whitespace(s, to, s.len() as int),
        from < to ==> !is_whitespace(s[from]) && !is_whitespace(s[to - 1]),
        from == to ==> from == 0,
    ensures
        strip_start(s) == from,
        strip_end(s) == to,
{
    lemma_stripped_is_trimmed(s);
    let a = strip_start(s);
    let b = strip_end(s);
    if from < to {
        if a == b {
            assert(is_whitespace(s[from]));
        }
        if a < from {
            assert(is_whitespace(s[a]));
        }
        if from < a {
            assert(is_whitespace(s[from]));
        }
        if b < to {
            assert(is_whitespace(s[to - 1]));
        }
        if to < b {
            assert(is_whitespace(s[b - 1]));
        }
    } else {
        if a < b {
            assert(is_whitespace(s[a]));
        }
    }
}

/// Whether `b` is space, tab, line feed, form feed or carriage return.
pub fn is_ascii_whitespace(b: u8) -> (r: bool)
    ensures
        r == is_whitespace(b),
{
    b == 0x20 || b == 0x09 || b == 0x0a || b == 0x0c || b == 0x0d
}

/// The bounds between which the trimmed bytes of `bytes` lie.
pub fn strip_bounds(bytes: &[u8]) -> (r: (usize, usize))
    ensures
        r.0 == strip_start(bytes@),
        r.1 == strip_end(bytes@),
        r.0 <= r.1 <= bytes@.len(),
{
    let n: usize = bytes.len();
    let mut from: usize = 0;
    while from < n && is_ascii_whitespace(bytes[from])
        invariant
            from <= n,
            n == bytes@.len(),
            text_start(bytes@, 0) == text_start(bytes@, from as int),
        decreases n - from,
    {
        from = from + 1;
    }
    if from == n {
        proof {
            lemma_stripped_is_trimmed(bytes@);
        }
        return (0, 0);
    }
    let mut to: usize = n;
    while to > 0 && is_ascii_whitespace(bytes[to - 1])
        invariant
            to <= n,
            n == bytes@.len(),
            text_end(bytes@, n as int) == text_end(bytes@, to as int),
        decreases to,
    {
        to = to - 1;
    }
    proof {
        lemma_stripped_is_trimmed(bytes@);
    }
    (from, to)
}

/// Trimming ASCII whitespace from the two ends of a run of bytes.
pub trait StripAsciiWhitespace {
    /// The bytes that the value holds.
    spec fn bytes(&self) -> Seq<u8>;

    /// The bytes between the first and the last that are no whitespace, both
    /// included; none where every byte is whitespace.
    fn strip(&self) -> (r: &[u8])
        ensures
            r@ == stripped(self.bytes()),
    ;
}

impl StripAsciiWhitespace for Vec<u8> {
    open spec fn bytes(&self) -> Seq<u8> {
        self@
    }

    fn strip(&self) -> (r: &[u8]) {
        let s: &[u8] = self.as_slice();
        let (from, to) = strip_bounds(s);
        slice_subrange(s, from, to)
    }
}

impl<'a> StripAsciiWhitespace for &'a [u8] {
    open spec fn bytes(&self) -> Seq<u8> {
        self@
    }

    fn strip(&self) -> (r: &[u8]) {
        let (from, to) = strip_bounds(*self);
        slice_subrange(*self, from, to)
    }
}

impl StripAsciiWhitespace for [u8; 20] {
    open spec fn bytes(&self) -> Seq<u8> {
        self@
    }

    fn strip(&self) -> (r: &[u8]) {
        let s: &[u8] = self.as_slice();
        let (from, to) = strip_bounds(s);
        slice_subrange(s, from, to)
    }
}

} // verus!
