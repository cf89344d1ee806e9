//! A length of time with nanosecond precision, as `std::time::Duration` keeps it.
use vstd::prelude::*;

verus! {

pub const NANOS_PER_SEC: u32 = 1_000_000_000;

/// Whole seconds and the nanoseconds of the second that is not complete.
#[derive(Clone, Copy, Debug, PartialEq, Eq)]
pub struct Span {
    pub secs: u64,
    pub nanos: u32,
}

/// The longest span there is: `u64::MAX` seconds and 999 999 999 nanoseconds.
pub open spec fn max_total() -> int {
    u64::MAX * 1_000_000_000 + 999_999_999
}

impl Span {
    /// The nanoseconds are less than a second.
    pub open spec fn wf(self) -> bool {
        self.nanos < NANOS_PER_SEC
    }

    /// The whole span in nanoseconds.
    pub open spec fn total(self) -> int {
        self.secs * 1_000_000_000 + self.nanos
    }

    /// The empty span.
    pub fn zero() -> (r: Span)
        ensures
            r.wf(),
            r.total() == 0,
    {
        Span { secs: 0, nanos: 0 }
    }

    /// The sum of two spans, or `None` where it passes the longest span.
    pub fn checked_add(self, other: Span) -> (r: Option<Span>)
        requires
            self.wf(),
            other.wf(),
        ensures
            r is Some <==> self.total() + other.total() <= max_total(),
            r matches Some(s) ==> s.wf() && s.total() == self.total() + other.total(),
    {
        let n = self.nanos + other.nanos;
        if n >= NANOS_PER_SEC {
            if self.secs == u64::MAX || other.secs > u64::MAX - self.secs - 1 {
                return None;
            }
            Some(Span { secs: self.secs + other.secs + 1, nanos: n - NANOS_PER_SEC })
        } else {
            if other.secs > u64::MAX - self.secs {
                return None;
            }
            Some(Span { secs: self.secs + other.secs, nanos: n })
        }
    }

    /// The difference of two spans, or the empty span where `other` is the longer.
    pub fn saturating_sub(self, other: Span) -> (r: Span)
        requires
            self.wf(),
            other.wf(),
        ensures
            r.wf(),
            r.total() == if self.total() >= other.total() {
                self.total() - other.total()
            } else {
                0
            },
    {
        if self.secs < other.secs || (self.secs == other.secs && self.nanos < other.nanos) {
            return Span::zero();
        }
        if self.nanos >= other.nanos {
            Span { secs: self.secs - other.secs, nanos: self.nanos - other.nanos }
        } else {
            Span { secs: self.secs - other.secs - 1, nanos: self.nanos + NANOS_PER_SEC - other.nanos }
        }
    }
}

} // verus!
