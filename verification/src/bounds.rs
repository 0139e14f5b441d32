//! Index ranges along one axis of a matrix.

use vstd::prelude::*;

verus! {

/// One end of an index range.
#[derive(Clone, Copy, Debug)]
pub enum Bound {
    /// The range reaches this index and holds it.
    Included(usize),
    /// The range reaches this index and leaves it out.
    Excluded(usize),
    /// The range reaches the end of the axis.
    Unbounded,
}

/// An index range along one axis, from `start` to `end`.
#[derive(Clone, Copy, Debug)]
pub struct Span {
    pub start: Bound,
    pub end: Bound,
}

/// The first index that a range starting at `start` holds.
pub open spec fn first_index(start: Bound) -> int {
    match start {
        Bound::Included(x) => x as int,
        Bound::Excluded(x) => x + 1,
        Bound::Unbounded => 0,
    }
}

/// The last index that a range ending at `end` holds, on an axis of `len`
/// indices. It is -1 where the range ends before the first index.
pub open spec fn last_index(end: Bound, len: nat) -> int {
    match end {
        Bound::Included(x) => x as int,
        Bound::Excluded(x) => x - 1,
        Bound::Unbounded => len - 1,
    }
}

impl Span {
    /// The first index of the span.
    pub open spec fn first(self) -> int {
        first_index(self.start)
    }

    /// The last index of the span on an axis of `len` indices.
    pub open spec fn last(self, len: nat) -> int {
        last_index(self.end, len)
    }

    /// The span holds at least one index, and all of its indices lie on an
    /// axis of `len` indices.
    pub open spec fn fits(self, len: nat) -> bool {
        self.first() <= self.last(len) < len
    }

    /// The number of indices of a span that fits.
    pub open spec fn count(self, len: nat) -> nat {
        (self.last(len) - self.first() + 1) as nat
    }

    /// The first and last index of the span on an axis of `len` indices, or
    /// `None` where the span is empty or leaves the axis.
    pub fn resolve(self, len: usize) -> (ends: Option<(usize, usize)>)
        ensures
            ends is Some <==> self.fits(len as nat),
            ends matches Some((first, last)) ==> first == self.first() && last == self.last(
                len as nat,
            ),
    {
        let first = match self.start {
            Bound::Included(x) => x,
            Bound::Excluded(x) => {
                if x >= len {
                    return None;
                }
                x + 1
            },
            Bound::Unbounded => 0,
        };
        let last = match self.end {
            Bound::Included(x) => x,
            Bound::Excluded(x) => {
                if x == 0 {
                    return None;
                }
                x - 1
            },
            Bound::Unbounded => {
                if len == 0 {
                    return None;
                }
                len - 1
            },
        };
        if first >= len || last >= len || last < first {
            return None;
        }
        Some((first, last))
    }
}

} // verus!
