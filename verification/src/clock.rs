//! Spans of time and points in time as plain values.

use vstd::prelude::*;

verus! {

/// The nanoseconds in a second.
pub const NANOS_PER_SEC: u32 = 1_000_000_000;

/// A span of time, or the time since a fixed moment.
#[derive(Debug, Clone, Copy, PartialEq, Eq, Structural)]
pub struct Span {
    pub secs: u64,
    pub nanos: u32,
}

impl Span {
    /// The nanoseconds do not make up a second.
    pub open spec fn wf(self) -> bool {
        self.nanos < NANOS_PER_SEC
    }

    /// The length in nanoseconds.
    pub open spec fn total(self) -> int {
        self.secs * NANOS_PER_SEC + self.nanos
    }

    /// The span from `self` to `now`, or none of it when `now` is not later.
    pub open spec fn spec_elapsed(self, now: Span) -> Span {
        if now.total() <= self.total() {
            Span { secs: 0, nanos: 0 }
        } else if now.nanos >= self.nanos {
            Span {
                secs: (now.secs - self.secs) as u64,
                nanos: (now.nanos - self.nanos) as u32,
            }
        } else {
            Span {
                secs: (now.secs - self.secs - 1) as u64,
                nanos: (now.nanos + NANOS_PER_SEC - self.nanos) as u32,
            }
        }
    }

    /// The span from `self` to `now`, or none of it when `now` is not later.
    pub fn elapsed(self, now: Span) -> (r: Span)
        requires
            self.wf(),
            now.wf(),
        ensures
            r == self.spec_elapsed(now),
            r.wf(),
            r.total() == if now.total() > self.total() {
                now.total() - self.total()
            } else {
                0
            },
    {
        if now.secs < self.secs || (now.secs == self.secs && now.nanos <= self.nanos) {
            Span { secs: 0, nanos: 0 }
        } else if now.nanos >= self.nanos {
            Span { secs: now.secs - self.secs, nanos: now.nanos - self.nanos }
        } else {
            Span {
                secs: now.secs - self.secs - 1,
                nanos: now.nanos + (NANOS_PER_SEC - self.nanos),
            }
        }
    }
}

/// The seconds of a span are its whole seconds.
pub proof fn law_secs_are_the_whole_seconds(span: Span)
    requires
        span.wf(),
    ensures
        span.secs == span.total() / NANOS_PER_SEC as int,
{
    assert((span.secs * NANOS_PER_SEC + span.nanos) / NANOS_PER_SEC as int == span.secs)
        by (nonlinear_arith)
        requires
            span.nanos < NANOS_PER_SEC,
            NANOS_PER_SEC == 1_000_000_000,
    ;
}

/// A point in time, by its distance from the start of 1970.
#[derive(Debug, Clone, Copy, PartialEq, Eq, Structural)]
pub enum Timestamp {
    /// At that moment, or this much later.
    AfterEpoch(Span),
    /// This much earlier.
    BeforeEpoch(Span),
}

/// Whether `a` is the shorter span.
pub open spec fn shorter(a: Span, b: Span) -> bool {
    a.secs < b.secs || (a.secs == b.secs && a.nanos < b.nanos)
}

impl Timestamp {
    /// The span is one, and a point before the start of 1970 is not at it.
    pub open spec fn wf(self) -> bool {
        match self {
            Timestamp::AfterEpoch(span) => span.wf(),
            Timestamp::BeforeEpoch(span) => span.wf() && span.total() > 0,
        }
    }

    /// The nanoseconds from the start of 1970.
    pub open spec fn nanoseconds(self) -> int {
        match self {
            Timestamp::AfterEpoch(span) => span.total(),
            Timestamp::BeforeEpoch(span) => -span.total(),
        }
    }

    /// Whether `self` is the earlier point.
    pub open spec fn before(self, other: Timestamp) -> bool {
        match (self, other) {
            (Timestamp::AfterEpoch(a), Timestamp::AfterEpoch(b)) => shorter(a, b),
            (Timestamp::BeforeEpoch(a), Timestamp::BeforeEpoch(b)) => shorter(b, a),
            (Timestamp::BeforeEpoch(_), Timestamp::AfterEpoch(_)) => true,
            (Timestamp::AfterEpoch(_), Timestamp::BeforeEpoch(_)) => false,
        }
    }

    /// Whether `self` is the earlier point.
    pub fn is_before(&self, other: &Timestamp) -> (r: bool)
        ensures
            r == self.before(*other),
    {
        match (self, other) {
            (Timestamp::AfterEpoch(a), Timestamp::AfterEpoch(b)) => a.secs < b.secs || (a.secs
                == b.secs && a.nanos < b.nanos),
            (Timestamp::BeforeEpoch(a), Timestamp::BeforeEpoch(b)) => b.secs < a.secs || (b.secs
                == a.secs && b.nanos < a.nanos),
            (Timestamp::BeforeEpoch(_), Timestamp::AfterEpoch(_)) => true,
            (Timestamp::AfterEpoch(_), Timestamp::BeforeEpoch(_)) => false,
        }
    }
}

/// Points in time are ordered, and told apart, by their distance from the start
/// of 1970.
pub proof fn law_timestamps_are_ordered_by_time(a: Timestamp, b: Timestamp)
    requires
        a.wf(),
        b.wf(),
    ensures
        a.before(b) <==> a.nanoseconds() < b.nanoseconds(),
        a == b <==> a.nanoseconds() == b.nanoseconds(),
{
}

/// From one moment to a later one it is as many nanoseconds as lie between them,
/// and none to an earlier one.
pub proof fn law_elapsed_is_the_time_between(start: Span, now: Span)
    requires
        start.wf(),
        now.wf(),
    ensures
        ({
            let from = start.secs * 1_000_000_000 + start.nanos;
            let to = now.secs * 1_000_000_000 + now.nanos;
            let passed = start.spec_elapsed(now);
            &&& passed.nanos < 1_000_000_000
            &&& passed.secs * 1_000_000_000 + passed.nanos == if to > from {
                to - from
            } else {
                0
            }
        }),
{
}

/// Of two points after the start of 1970 the one of fewer nanoseconds is earlier,
/// of two before it the one of more; and any before it is earlier than any after.
pub proof fn law_earlier_points_come_first(a: Span, b: Span)
    requires
        a.wf(),
        b.wf(),
    ensures
        ({
            let x = a.secs * 1_000_000_000 + a.nanos;
            let y = b.secs * 1_000_000_000 + b.nanos;
            &&& Timestamp::AfterEpoch(a).before(Timestamp::AfterEpoch(b)) <==> x < y
            &&& Timestamp::BeforeEpoch(a).before(Timestamp::BeforeEpoch(b)) <==> y < x
            &&& Timestamp::BeforeEpoch(a).before(Timestamp::AfterEpoch(b))
            &&& !Timestamp::AfterEpoch(a).before(Timestamp::BeforeEpoch(b))
        }),
{
}

} // verus!
