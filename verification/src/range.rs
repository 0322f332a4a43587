//! Half-open address ranges.
//!
//! A range `start..end` stands for the addresses from `start` up to, but not
//! including, `end`. A range whose end is not above its start holds nothing.

use vstd::prelude::*;
use core::ops::Range;
use crate::address::{PhysicalAddress, VirtualAddress};

verus! {

/// The mathematical content of a range: its two bounds as integers.
pub struct Span {
    pub start: int,
    pub end: int,
}

impl Span {
    /// The addresses that the span holds.
    pub open spec fn points(self) -> Set<int> {
        Set::new(|a: int| self.start <= a < self.end)
    }

    /// Whether the span holds no address.
    pub open spec fn is_empty(self) -> bool {
        self.end <= self.start
    }

    /// The number of addresses in the span.
    pub open spec fn len(self) -> int {
        if self.start < self.end {
            self.end - self.start
        } else {
            0
        }
    }

    /// Whether the two spans overlap or lie end to start, so that nothing
    /// lies between them.
    pub open spec fn touches(self, other: Span) -> bool {
        self.start <= other.end && other.start <= self.end
    }

    /// The span from the lower of the two starts to the higher of the two ends.
    pub open spec fn concat(self, other: Span) -> Span {
        Span {
            start: if self.start <= other.start {
                self.start
            } else {
                other.start
            },
            end: if self.end >= other.end {
                self.end
            } else {
                other.end
            },
        }
    }
}

/// Merging is commutative, associative and idempotent.
pub proof fn lemma_concat_algebra(a: Span, b: Span, c: Span)
    ensures
        a.concat(b) == b.concat(a),
        a.concat(b).concat(c) == a.concat(b.concat(c)),
        a.concat(a) == a,
{
}

/// The merged span covers both spans, and where the two touch it covers
/// nothing else: it is their union.
pub proof fn lemma_concat_is_union(a: Span, b: Span)
    ensures
        a.points().subset_of(a.concat(b).points()),
        b.points().subset_of(a.concat(b).points()),
        !a.is_empty() && !b.is_empty() && a.touches(b) ==> a.concat(b).points() == a.points().union(
            b.points(),
        ),
{
    if !a.is_empty() && !b.is_empty() && a.touches(b) {
        assert(a.concat(b).points() =~= a.points().union(b.points()));
    }
}

/// Operations on ranges of addresses.
pub trait AddressRangeExt: Sized {
    /// The bounds of the range as integers.
    spec fn span(&self) -> Span;

    /// The range from the lower of the two starts to the higher of the two
    /// ends.
    spec fn merged(self, other: Self) -> Self;

    /// Merges two ranges that overlap or lie end to start into the range
    /// from the lower start to the higher end. The ranges are not checked to
    /// touch: for two ranges with a gap the result covers the gap too.
    fn concat(self, other: Self) -> (r: Self)
        ensures
            r == self.merged(other),
            r.span() == self.span().concat(other.span()),
    ;

    /// The number of bytes in the range.
    fn size(&self) -> (n: usize)
        ensures
            n == self.span().len(),
    ;

    /// Whether the two ranges overlap or lie end to start.
    fn touches(&self, other: &Self) -> (r: bool)
        ensures
            r == self.span().touches(other.span()),
    ;
}

impl AddressRangeExt for Range<VirtualAddress> {
    open spec fn span(&self) -> Span {
        Span { start: self.start.0 as int, end: self.end.0 as int }
    }

    open spec fn merged(self, other: Self) -> Self {
        Range {
            start: if self.start.0 <= other.start.0 {
                self.start
            } else {
                other.start
            },
            end: if self.end.0 >= other.end.0 {
                self.end
            } else {
                other.end
            },
        }
    }

    fn concat(self, other: Self) -> (r: Self) {
        let start = if self.start.0 <= other.start.0 {
            self.start
        } else {
            other.start
        };
        let end = if self.end.0 >= other.end.0 {
            self.end
        } else {
            other.end
        };
        Range { start, end }
    }

    fn size(&self) -> (n: usize) {
        if self.start.0 < self.end.0 {
            self.end.0 - self.start.0
        } else {
            0
        }
    }

    fn touches(&self, other: &Self) -> (r: bool) {
        self.start.0 <= other.end.0 && other.start.0 <= self.end.0
    }
}

impl AddressRangeExt for Range<PhysicalAddress> {
    open spec fn span(&self) -> Span {
        Span { start: self.start.0 as int, end: self.end.0 as int }
    }

    open spec fn merged(self, other: Self) -> Self {
        Range {
            start: if self.start.0 <= other.start.0 {
                self.start
            } else {
                other.start
            },
            end: if self.end.0 >= other.end.0 {
                self.end
            } else {
                other.end
            },
        }
    }

    fn concat(self, other: Self) -> (r: Self) {
        let start = if self.start.0 <= other.start.0 {
            self.start
        } else {
            other.start
        };
        let end = if self.end.0 >= other.end.0 {
            self.end
        } else {
            other.end
        };
        Range { start, end }
    }

    fn size(&self) -> (n: usize) {
        if self.start.0 < self.end.0 {
            self.end.0 - self.start.0
        } else {
            0
        }
    }

    fn touches(&self, other: &Self) -> (r: bool) {
        self.start.0 <= other.end.0 && other.start.0 <= self.end.0
    }
}

} // verus!
