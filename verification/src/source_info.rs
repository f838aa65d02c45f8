//! Positions in source text.

use vstd::prelude::*;
pub use crate::ids::SourceFileId;

verus! {

/// A half-open range `start..end` of positions in a source file.
#[derive(Copy, Clone, Debug)]
pub struct SourceRange {
    pub start: usize,
    pub end: usize,
}

impl Default for SourceRange {
    /// The range that stands for "no position": both ends at the largest position.
    fn default() -> (r: Self)
        ensures
            r.start == usize::MAX,
            r.end == usize::MAX,
    {
        SourceRange { start: usize::MAX, end: usize::MAX }
    }
}

impl SourceRange {
    /// The range that covers the one character at `index`.
    pub fn from_single_char(index: usize) -> (r: SourceRange)
        requires
            index < usize::MAX,
        ensures
            r.start == index,
            r.end == index + 1,
    {
        SourceRange { start: index, end: index + 1 }
    }
}

/// The smallest range that reaches from the earlier start to the later end of `a` and `b`.
pub open spec fn concat_spec(a: SourceRange, b: SourceRange) -> SourceRange {
    SourceRange {
        start: if a.start <= b.start { a.start } else { b.start },
        end: if a.end >= b.end { a.end } else { b.end },
    }
}

/// Joins two ranges into the smallest range that holds both.
pub fn concat(a: SourceRange, b: SourceRange) -> (r: SourceRange)
    ensures
        r == concat_spec(a, b),
{
    let start = if a.start <= b.start { a.start } else { b.start };
    let end = if a.end >= b.end { a.end } else { b.end };
    SourceRange { start, end }
}

} // verus!
