use vstd::prelude::*;

verus! {

/// A contiguous span of byte offsets. Both ends are inclusive: `end` is the
/// last byte of the span, not one past it.
#[derive(Clone, Copy, Debug, PartialEq, Eq, Structural)]
pub struct Region {
    pub begin: usize,
    pub end: usize,
}

impl Region {
    pub open spec fn wf(self) -> bool {
        self.begin <= self.end
    }

    /// Whether `off` is one of the offsets of the span.
    pub open spec fn contains(self, off: int) -> bool {
        self.begin <= off <= self.end
    }

    /// The number of bytes in the span.
    pub open spec fn len_spec(self) -> int {
        self.end - self.begin + 1
    }

    pub fn new(begin: usize, end: usize) -> (r: Region)
        requires
            begin <= end,
        ensures
            r.begin == begin,
            r.end == end,
            r.wf(),
    {
        Region { begin, end }
    }

    /// The region made of one byte.
    pub fn single(offset: usize) -> (r: Region)
        ensures
            r.begin == offset,
            r.end == offset,
            r.wf(),
    {
        Region { begin: offset, end: offset }
    }

    /// Whether `off` lies within the region.
    pub fn contains_offset(&self, off: usize) -> (r: bool)
        ensures
            r == self.contains(off as int),
    {
        self.begin <= off && off <= self.end
    }
}

} // verus!
