use vstd::prelude::*;

use crate::region::Region;

verus! {

/// The smallest region that covers every byte changed since the last save,
/// or nothing when no byte was changed.
#[derive(Clone, Copy, Debug, PartialEq, Eq, Structural)]
pub struct DamageTracker {
    pub region: Option<Region>,
}

/// The end that a widening to `[begin, end]` asks for: `end` when given,
/// else `begin` for a fresh region, else the recorded end.
pub open spec fn widen_ok(current: Option<Region>, begin: int, end: Option<usize>) -> bool {
    match end {
        Some(e) => match current {
            Some(t) => e >= (if begin < t.begin {
                begin
            } else {
                t.begin as int
            }),
            None => e >= begin,
        },
        None => true,
    }
}

/// What the recorded region becomes after a widening with `begin` and
/// `end`: a fresh region `[begin, end or begin]`, or the recorded one with
/// its start lowered to `begin` and its end raised to `begin` and `end`.
pub open spec fn widened(current: Option<Region>, begin: usize, end: Option<usize>) -> Option<Region> {
    match current {
        None => Some(Region { begin, end: end.unwrap_or(begin) }),
        Some(t) => Some(
            Region {
                begin: vstd::math::min(t.begin as int, begin as int) as usize,
                end: vstd::math::max(
                    vstd::math::max(t.end as int, begin as int),
                    end.unwrap_or(t.end) as int,
                ) as usize,
            },
        ),
    }
}

impl DamageTracker {
    pub open spec fn wf(self) -> bool {
        match self.region {
            Some(r) => r.wf(),
            None => true,
        }
    }

    /// A tracker with nothing changed.
    pub fn new() -> (r: DamageTracker)
        ensures
            r.region is None,
    {
        DamageTracker { region: None }
    }

    /// Records a change from `begin` to `end` (or of the single byte at
    /// `begin`). The recorded region only grows: it keeps covering what it
    /// covered, and now covers the new bytes too.
    ///
    /// An `end` before the start of the widened region is a caller's error,
    /// left out by the precondition.
    pub fn widen(&mut self, begin: usize, end: Option<usize>)
        requires
            old(self).wf(),
            widen_ok(old(self).region, begin as int, end),
        ensures
            final(self).region == widened(old(self).region, begin, end),
            final(self).wf(),
            final(self).region.unwrap().contains(begin as int),
            end is Some ==> final(self).region.unwrap().contains(end.unwrap() as int),
            old(self).region is Some ==> {
                let o = old(self).region.unwrap();
                let n = final(self).region.unwrap();
                n.begin <= o.begin && o.end <= n.end
            },
    {
        match self.region {
            Some(t) => {
                let mut r = t;
                if begin < r.begin {
                    r.begin = begin;
                }
                if begin > r.end {
                    r.end = begin;
                }
                if let Some(e) = end {
                    if e > r.end {
                        r.end = e;
                    }
                }
                self.region = Some(r);
            },
            None => {
                let e = match end {
                    Some(e) => e,
                    None => begin,
                };
                self.region = Some(Region { begin, end: e });
            },
        }
    }

    /// Forgets the recorded region, after a save.
    pub fn clear(&mut self)
        ensures
            final(self).region is None,
    {
        self.region = None;
    }

    pub fn region(&self) -> (r: Option<Region>)
        ensures
            r == self.region,
    {
        self.region
    }
}

} // verus!
