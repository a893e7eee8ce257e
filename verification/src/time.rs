//! Spans of time and clock readings.

use vstd::prelude::*;

verus! {

/// The longest representable span, in nanoseconds.
pub open spec fn max_nanos() -> nat {
    (u64::MAX as nat) * 1_000_000_000 + 999_999_999
}

/// The length of the span between two clock readings, zero if they are out of order.
pub open spec fn elapsed(from: nat, to: nat) -> nat {
    if to < from {
        0
    } else {
        (to - from) as nat
    }
}

/// A span of time with nanosecond resolution.
///
/// Its view is the span's length in nanoseconds.
#[derive(Clone, Copy, PartialEq, Eq, Structural, Debug)]
pub struct Duration {
    secs: u64,
    nanos: u32,
}

impl View for Duration {
    type V = nat;

    closed spec fn view(&self) -> nat {
        (self.secs as nat) * 1_000_000_000 + self.nanos as nat
    }
}

impl Duration {
    #[verifier::type_invariant]
    spec fn canonical(self) -> bool {
        self.nanos < 1_000_000_000
    }

    /// The span of `nanos` nanoseconds.
    pub closed spec fn of(nanos: nat) -> Duration {
        Duration { secs: (nanos / 1_000_000_000) as u64, nanos: (nanos % 1_000_000_000) as u32 }
    }

    /// The span of a representable number of nanoseconds has that length.
    pub broadcast proof fn lemma_of(nanos: nat)
        requires
            nanos <= max_nanos(),
        ensures
            (#[trigger] Duration::of(nanos))@ == nanos,
    {
    }

    /// The span of the given whole seconds and nanoseconds.
    pub fn new(secs: u64, nanos: u32) -> (d: Duration)
        requires
            nanos < 1_000_000_000,
        ensures
            d@ == (secs as nat) * 1_000_000_000 + nanos as nat,
            d == Duration::of((secs as nat) * 1_000_000_000 + nanos as nat),
    {
        Duration { secs, nanos }
    }

    /// The empty span.
    pub fn zero() -> (d: Duration)
        ensures
            d == Duration::of(0),
            d@ == 0,
    {
        Duration { secs: 0, nanos: 0 }
    }

    pub fn from_secs(secs: u64) -> (d: Duration)
        ensures
            d@ == (secs as nat) * 1_000_000_000,
            d == Duration::of((secs as nat) * 1_000_000_000),
    {
        Duration { secs, nanos: 0 }
    }

    pub fn from_millis(millis: u64) -> (d: Duration)
        ensures
            d@ == (millis as nat) * 1_000_000,
            d == Duration::of((millis as nat) * 1_000_000),
    {
        Duration { secs: millis / 1_000, nanos: (millis % 1_000) as u32 * 1_000_000 }
    }

    pub fn from_micros(micros: u64) -> (d: Duration)
        ensures
            d@ == (micros as nat) * 1_000,
            d == Duration::of((micros as nat) * 1_000),
    {
        Duration { secs: micros / 1_000_000, nanos: (micros % 1_000_000) as u32 * 1_000 }
    }

    pub fn from_nanos(nanos: u64) -> (d: Duration)
        ensures
            d == Duration::of(nanos as nat),
            d@ == nanos,
    {
        Duration { secs: nanos / 1_000_000_000, nanos: (nanos % 1_000_000_000) as u32 }
    }

    /// The whole seconds of the span.
    pub fn as_secs(&self) -> (secs: u64)
        ensures
            secs as nat == self@ / 1_000_000_000,
    {
        proof {
            use_type_invariant(self);
        }
        self.secs
    }

    /// The nanoseconds of the span beyond its whole seconds.
    pub fn subsec_nanos(&self) -> (nanos: u32)
        ensures
            nanos as nat == self@ % 1_000_000_000,
    {
        proof {
            use_type_invariant(self);
        }
        self.nanos
    }

    /// Whether the span is shorter than `other`.
    pub fn is_shorter_than(&self, other: &Duration) -> (shorter: bool)
        ensures
            shorter == (self@ < other@),
    {
        proof {
            use_type_invariant(self);
            use_type_invariant(other);
        }
        self.secs < other.secs || (self.secs == other.secs && self.nanos < other.nanos)
    }

    /// The longer of two spans.
    pub fn max(self, other: Duration) -> (longer: Duration)
        ensures
            longer == if self@ < other@ {
                other
            } else {
                self
            },
    {
        if self.is_shorter_than(&other) {
            other
        } else {
            self
        }
    }

    /// Half of the span, rounded down to a nanosecond.
    pub fn half(self) -> (d: Duration)
        ensures
            d@ == self@ / 2,
            d == Duration::of(self@ / 2),
    {
        proof {
            use_type_invariant(&self);
        }
        let carry: u32 = if self.secs % 2 == 1 {
            500_000_000
        } else {
            0
        };
        Duration { secs: self.secs / 2, nanos: carry + self.nanos / 2 }
    }

    /// The difference of two spans, or the empty span if `other` is the longer.
    pub fn saturating_sub(self, other: Duration) -> (d: Duration)
        ensures
            d@ == elapsed(other@, self@),
            d == Duration::of(elapsed(other@, self@)),
    {
        proof {
            use_type_invariant(&self);
            use_type_invariant(&other);
        }
        if self.is_shorter_than(&other) {
            Duration { secs: 0, nanos: 0 }
        } else if self.nanos >= other.nanos {
            Duration { secs: self.secs - other.secs, nanos: self.nanos - other.nanos }
        } else {
            Duration {
                secs: self.secs - other.secs - 1,
                nanos: 1_000_000_000 - other.nanos + self.nanos,
            }
        }
    }

    /// The sum of two spans, if it is representable.
    pub fn checked_add(self, other: Duration) -> (sum: Option<Duration>)
        ensures
            sum is Some <==> self@ + other@ <= max_nanos(),
            sum matches Some(d) ==> d@ == self@ + other@ && d == Duration::of(self@ + other@),
    {
        proof {
            use_type_invariant(&self);
            use_type_invariant(&other);
        }
        let nanos: u32 = self.nanos + other.nanos;
        let (carry, rest): (u64, u32) = if nanos >= 1_000_000_000 {
            (1, nanos - 1_000_000_000)
        } else {
            (0, nanos)
        };
        match self.secs.checked_add(other.secs) {
            Some(secs) => match secs.checked_add(carry) {
                Some(secs) => Some(Duration { secs, nanos: rest }),
                None => None,
            },
            None => None,
        }
    }
}

/// A reading of a monotonic clock, as the span since the clock's origin.
///
/// Its view is the reading in nanoseconds.
#[derive(Clone, Copy, PartialEq, Eq, Structural, Debug)]
pub struct Instant {
    since_origin: Duration,
}

impl View for Instant {
    type V = nat;

    closed spec fn view(&self) -> nat {
        self.since_origin@
    }
}

impl Instant {
    /// The reading `nanos` nanoseconds after the clock's origin.
    pub closed spec fn of(nanos: nat) -> Instant {
        Instant { since_origin: Duration::of(nanos) }
    }

    /// The reading after a representable number of nanoseconds is that number.
    pub broadcast proof fn lemma_of(nanos: nat)
        requires
            nanos <= max_nanos(),
        ensures
            (#[trigger] Instant::of(nanos))@ == nanos,
    {
        Duration::lemma_of(nanos);
    }

    /// The reading `since_origin` after the clock's origin.
    pub fn new(since_origin: Duration) -> (t: Instant)
        ensures
            t@ == since_origin@,
            t == Instant::of(since_origin@),
    {
        proof {
            use_type_invariant(&since_origin);
        }
        Instant { since_origin }
    }

    /// The span from the clock's origin to the reading.
    pub fn since_origin(&self) -> (d: Duration)
        ensures
            d@ == self@,
            d == Duration::of(self@),
    {
        proof {
            use_type_invariant(&self.since_origin);
        }
        self.since_origin
    }

    /// The span from `earlier` to this reading, empty if `earlier` is the later one.
    pub fn saturating_duration_since(&self, earlier: Instant) -> (d: Duration)
        ensures
            d@ == elapsed(earlier@, self@),
            d == Duration::of(elapsed(earlier@, self@)),
    {
        self.since_origin.saturating_sub(earlier.since_origin)
    }

    /// Whether the reading comes before `other`.
    pub fn is_before(&self, other: Instant) -> (before: bool)
        ensures
            before == (self@ < other@),
    {
        self.since_origin.is_shorter_than(&other.since_origin)
    }

    /// The reading `span` later, if it is representable.
    pub fn checked_add(&self, span: Duration) -> (later: Option<Instant>)
        ensures
            later is Some <==> self@ + span@ <= max_nanos(),
            later matches Some(t) ==> t@ == self@ + span@ && t == Instant::of(self@ + span@),
    {
        match self.since_origin.checked_add(span) {
            Some(since_origin) => Some(Instant { since_origin }),
            None => None,
        }
    }

    /// The reading `span` later.
    pub fn plus(&self, span: Duration) -> (later: Instant)
        requires
            self@ + span@ <= max_nanos(),
        ensures
            later@ == self@ + span@,
            later == Instant::of(self@ + span@),
    {
        match self.checked_add(span) {
            Some(later) => later,
            None => *self,
        }
    }
}

/// The time elapsed is what has to be added to the earlier reading to get the later one. No time has
/// elapsed between readings that are out of order.
pub proof fn law_elapsed(from: nat, to: nat)
    ensures
        from <= to ==> from + elapsed(from, to) == to,
        to <= from ==> elapsed(from, to) == 0,
{
}

/// A span of `secs` seconds and `nanos` nanoseconds is representable for every `secs` that fits 64
/// bits and every `nanos` below a second, and no other span is.
pub proof fn law_representable_spans(secs: nat, nanos: nat)
    requires
        nanos < 1_000_000_000,
    ensures
        secs * 1_000_000_000 + nanos <= max_nanos() <==> secs < 0x1_0000_0000_0000_0000,
{
}

} // verus!
