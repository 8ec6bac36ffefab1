//! Source ranges.

use vstd::prelude::*;

verus! {

/// A half-open range of source positions together with the expansion
/// context the range was produced in.  Context `0` is code the user wrote.
#[derive(Clone, Copy, Debug, PartialEq, Eq, Structural)]
pub struct Span {
    pub lo: u32,
    pub hi: u32,
    pub ctxt: u32,
}

impl Span {
    /// The start of a well-formed range never lies behind its end.
    pub open spec fn wf(self) -> bool {
        self.lo <= self.hi
    }

    /// Lexicographic key by which ranges are ordered: start, end, context.
    pub open spec fn before(self, other: Span) -> bool {
        self.lo < other.lo || (self.lo == other.lo && (self.hi < other.hi || (self.hi == other.hi
            && self.ctxt < other.ctxt)))
    }

    pub open spec fn spec_contains(self, other: Span) -> bool {
        self.lo <= other.lo && other.hi <= self.hi
    }

    pub open spec fn spec_with_lo(self, lo: u32) -> Span {
        if lo <= self.hi {
            Span { lo, hi: self.hi, ctxt: self.ctxt }
        } else {
            Span { lo: self.hi, hi: lo, ctxt: self.ctxt }
        }
    }

    pub open spec fn spec_with_hi(self, hi: u32) -> Span {
        if self.lo <= hi {
            Span { lo: self.lo, hi, ctxt: self.ctxt }
        } else {
            Span { lo: hi, hi: self.lo, ctxt: self.ctxt }
        }
    }

    pub open spec fn spec_to(self, end: Span) -> Span {
        Span {
            lo: if self.lo <= end.lo { self.lo } else { end.lo },
            hi: if self.hi >= end.hi { self.hi } else { end.hi },
            ctxt: self.ctxt,
        }
    }

    /// A range in user-written code; the two ends are put in order.
    pub fn new(lo: u32, hi: u32) -> (s: Span)
        ensures
            s.wf(),
            s.ctxt == 0,
            lo <= hi ==> s.lo == lo && s.hi == hi,
            lo > hi ==> s.lo == hi && s.hi == lo,
    {
        if lo <= hi {
            Span { lo, hi, ctxt: 0 }
        } else {
            Span { lo: hi, hi: lo, ctxt: 0 }
        }
    }

    /// A range that an expansion with the given context produced.
    pub fn in_expansion(lo: u32, hi: u32, ctxt: u32) -> (s: Span)
        ensures
            s.wf(),
            s.ctxt == ctxt,
            lo <= hi ==> s.lo == lo && s.hi == hi,
            lo > hi ==> s.lo == hi && s.hi == lo,
    {
        if lo <= hi {
            Span { lo, hi, ctxt }
        } else {
            Span { lo: hi, hi: lo, ctxt }
        }
    }

    /// Whether the range stems from an expansion rather than from user code.
    pub fn from_expansion(&self) -> (b: bool)
        ensures
            b == (self.ctxt != 0),
    {
        self.ctxt != 0
    }

    /// Whether `other` lies entirely inside this range.
    pub fn contains(&self, other: Span) -> (b: bool)
        ensures
            b == self.spec_contains(other),
    {
        self.lo <= other.lo && other.hi <= self.hi
    }

    /// The range with its start moved to `lo`; the ends are swapped where
    /// `lo` lies behind the end.
    pub fn with_lo(&self, lo: u32) -> (s: Span)
        ensures
            s == self.spec_with_lo(lo),
            s.wf(),
    {
        if lo <= self.hi {
            Span { lo, hi: self.hi, ctxt: self.ctxt }
        } else {
            Span { lo: self.hi, hi: lo, ctxt: self.ctxt }
        }
    }

    /// The range with its end moved to `hi`; the ends are swapped where
    /// `hi` lies before the start.
    pub fn with_hi(&self, hi: u32) -> (s: Span)
        ensures
            s == self.spec_with_hi(hi),
            s.wf(),
    {
        if self.lo <= hi {
            Span { lo: self.lo, hi, ctxt: self.ctxt }
        } else {
            Span { lo: hi, hi: self.lo, ctxt: self.ctxt }
        }
    }

    /// The smallest range that covers both this one and `end`.
    pub fn to(&self, end: Span) -> (s: Span)
        ensures
            s == self.spec_to(end),
            self.wf() ==> s.wf(),
    {
        Span {
            lo: if self.lo <= end.lo { self.lo } else { end.lo },
            hi: if self.hi >= end.hi { self.hi } else { end.hi },
            ctxt: self.ctxt,
        }
    }

    /// Whether this range is ordered strictly before `other`.
    pub fn precedes(&self, other: Span) -> (b: bool)
        ensures
            b == self.before(other),
    {
        self.lo < other.lo || (self.lo == other.lo && (self.hi < other.hi || (self.hi == other.hi
            && self.ctxt < other.ctxt)))
    }
}

/// The order on ranges is total: of two different ranges exactly one
/// precedes the other, and no range precedes itself.
pub proof fn lemma_span_order_total(a: Span, b: Span)
    ensures
        !a.before(a),
        a != b ==> (a.before(b) != b.before(a)),
        a == b ==> !a.before(b) && !b.before(a),
{
}

/// The order on ranges is transitive.
pub proof fn lemma_span_order_transitive(a: Span, b: Span, c: Span)
    requires
        a.before(b),
        b.before(c),
    ensures
        a.before(c),
{
}

/// A range that starts where a well-formed range inside `scope` ends is
/// itself inside `scope`, and lies entirely behind that range.
pub proof fn lemma_window_after(scope: Span, start: Span)
    requires
        scope.wf(),
        start.wf(),
        scope.spec_contains(start),
    ensures
        scope.spec_contains(scope.spec_with_lo(start.hi)),
        scope.spec_with_lo(start.hi).lo == start.hi,
        scope.spec_with_lo(start.hi).hi == scope.hi,
{
}

} // verus!
