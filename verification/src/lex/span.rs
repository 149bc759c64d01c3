use vstd::prelude::*;

use vstd::math::{max, min};

use super::source::SourceId;

verus! {

/// A byte range `start..end` inside the source identified by `source_id`.
#[derive(Clone, Copy, Debug, Default, PartialEq, Eq, Structural)]
pub struct Span {
    pub source_id: SourceId,
    pub start: usize,
    pub end: usize,
}

impl Span {
    pub open spec fn spec_between(left: Span, right: Span) -> Span {
        Span { source_id: left.source_id, start: left.end, end: right.start }
    }

    pub open spec fn spec_collapse_to_start(self) -> Span {
        Span { source_id: self.source_id, start: self.start, end: self.start }
    }

    pub open spec fn spec_collapse_to_end(self) -> Span {
        Span { source_id: self.source_id, start: self.end, end: self.end }
    }

    /// The empty span at the start of no source.
    pub fn default_span() -> (r: Span)
        ensures
            r == (Span { source_id: SourceId(0), start: 0, end: 0 }),
    {
        Span { source_id: SourceId(0), start: 0, end: 0 }
    }

    /// Whether this span ends strictly before `index`.
    pub fn before(&self, index: usize) -> (r: bool)
        ensures
            r == (self.end < index),
    {
        self.end < index
    }

    /// Whether `index` lies within this span, both ends included.
    pub fn contains(&self, index: usize) -> (r: bool)
        ensures
            r == (self.start <= index && index <= self.end),
    {
        self.start <= index && index <= self.end
    }

    /// Grows this span so that it also covers `other`; the source stays.
    pub fn join(&mut self, other: Span)
        ensures
            final(self).source_id == old(self).source_id,
            final(self).start == min(old(self).start as int, other.start as int),
            final(self).end == max(old(self).end as int, other.end as int),
    {
        if other.start < self.start {
            self.start = other.start;
        }
        if other.end > self.end {
            self.end = other.end;
        }
    }

    /// The smallest span that covers both `self` and `other`, in the source of `self`.
    pub fn joined(self, other: Span) -> (r: Span)
        ensures
            r.source_id == self.source_id,
            r.start == min(self.start as int, other.start as int),
            r.end == max(self.end as int, other.end as int),
    {
        let mut span = self;
        span.join(other);
        span
    }

    /// The gap from the end of `left` to the start of `right`.
    pub fn between(left: Self, right: Self) -> (r: Span)
        ensures
            r == (Span { source_id: left.source_id, start: left.end, end: right.start }),
    {
        Span { source_id: left.source_id, start: left.end, end: right.start }
    }

    /// The empty span at the start of this one.
    pub fn collapse_to_start(self) -> (r: Self)
        ensures
            r == (Span { source_id: self.source_id, start: self.start, end: self.start }),
    {
        Self { source_id: self.source_id, start: self.start, end: self.start }
    }

    /// The empty span at the end of this one.
    pub fn collapse_to_end(self) -> (r: Self)
        ensures
            r == (Span { source_id: self.source_id, start: self.end, end: self.end }),
    {
        Self { source_id: self.source_id, start: self.end, end: self.end }
    }
}

/// The span that joining `a` and `b` gives.
pub open spec fn spec_joined(a: Span, b: Span) -> Span {
    Span { source_id: a.source_id, start: min(a.start as int, b.start as int) as usize, end: max(a.end as int, b.end as int) as usize }
}

/// Joining covers both spans: every index either contains is contained in
/// the join.
pub proof fn law_join_covers(a: Span, b: Span, index: usize)
    requires
        a.start <= a.end,
        b.start <= b.end,
    ensures
        (a.start <= index <= a.end || b.start <= index <= b.end) ==> spec_joined(a, b).start <= index
            <= spec_joined(a, b).end,
{
}

/// Joining is commutative (within one source), associative and idempotent.
pub proof fn law_join_algebra(a: Span, b: Span, c: Span)
    requires
        a.source_id == b.source_id,
    ensures
        spec_joined(a, b) == spec_joined(b, a),
        spec_joined(spec_joined(a, b), c) == spec_joined(a, spec_joined(b, c)),
        spec_joined(a, a) == a,
{
}

} // verus!
