//! Points in time and spans of time, as whole numbers of nanoseconds.

use vstd::prelude::*;

pub mod laws;

verus! {

/// Nanoseconds in a second.
pub const NANOS_PER_SEC: u32 = 1_000_000_000;

/// An unsigned span of time.
#[derive(Debug, Clone, Copy, PartialEq, Eq, Structural)]
pub struct Duration {
    secs: u64,
    nanos: u32,
}

impl View for Duration {
    type V = nat;

    /// The span in nanoseconds.
    closed spec fn view(&self) -> nat {
        self.secs as nat * NANOS_PER_SEC as nat + self.nanos as nat
    }
}

impl Duration {
    #[verifier::type_invariant]
    spec fn normal(self) -> bool {
        self.nanos < NANOS_PER_SEC
    }

    /// A span of seconds and nanoseconds; `None` if the nanoseconds fill a second.
    pub fn new(secs: u64, nanos: u32) -> (r: Option<Duration>)
        ensures
            match r {
                Some(d) => nanos < NANOS_PER_SEC && d@ == secs as nat * NANOS_PER_SEC as nat
                    + nanos as nat,
                None => nanos >= NANOS_PER_SEC,
            },
    {
        if nanos < NANOS_PER_SEC {
            Some(Duration { secs, nanos })
        } else {
            None
        }
    }

    /// A span of whole seconds.
    pub fn from_secs(secs: u64) -> (r: Duration)
        ensures
            r@ == secs as nat * NANOS_PER_SEC as nat,
    {
        Duration { secs, nanos: 0 }
    }

    /// The whole seconds of the span.
    pub fn as_secs(&self) -> (r: u64)
        ensures
            r as nat == self@ / NANOS_PER_SEC as nat,
    {
        proof {
            use_type_invariant(self);
        }
        self.secs
    }

    /// The nanoseconds of the span beyond its whole seconds.
    pub fn subsec_nanos(&self) -> (r: u32)
        ensures
            r as nat == self@ % NANOS_PER_SEC as nat,
    {
        proof {
            use_type_invariant(self);
        }
        self.nanos
    }
}

/// A signed span of time.
#[derive(Debug, Clone, Copy, PartialEq, Eq, Structural)]
pub struct TimeDelta {
    secs: i64,
    nanos: u32,
}

impl View for TimeDelta {
    type V = int;

    /// The span in nanoseconds.
    closed spec fn view(&self) -> int {
        self.secs as int * NANOS_PER_SEC as int + self.nanos as int
    }
}

impl TimeDelta {
    #[verifier::type_invariant]
    spec fn normal(self) -> bool {
        self.nanos < NANOS_PER_SEC
    }

    /// A span of seconds and nanoseconds; `None` if the nanoseconds fill a second.
    pub fn new(secs: i64, nanos: u32) -> (r: Option<TimeDelta>)
        ensures
            match r {
                Some(d) => nanos < NANOS_PER_SEC && d@ == secs as int * NANOS_PER_SEC as int
                    + nanos as int,
                None => nanos >= NANOS_PER_SEC,
            },
    {
        if nanos < NANOS_PER_SEC {
            Some(TimeDelta { secs, nanos })
        } else {
            None
        }
    }

    /// A span of whole seconds.
    pub fn seconds(secs: i64) -> (r: TimeDelta)
        ensures
            r@ == secs as int * NANOS_PER_SEC as int,
    {
        TimeDelta { secs, nanos: 0 }
    }
}

/// A point in time, counted from the Unix epoch in UTC without leap seconds.
#[derive(Debug, Clone, Copy, PartialEq, Eq, Structural)]
pub struct Timestamp {
    secs: i64,
    nanos: u32,
}

impl View for Timestamp {
    type V = int;

    /// Nanoseconds since the epoch.
    closed spec fn view(&self) -> int {
        self.secs as int * NANOS_PER_SEC as int + self.nanos as int
    }
}

/// `chrono::Utc::now`, as whole seconds since the epoch and the nanoseconds
/// beyond them. The time is whatever the system clock says: claimed is only
/// that it does not lie before the epoch (the call panics on such a clock) and
/// that the nanoseconds do not fill a second.
#[verifier::external_body]
fn utc_now() -> (r: (i64, u32))
    ensures
        r.0 >= 0,
        r.1 < NANOS_PER_SEC,
{
    let now = chrono::Utc::now();
    (now.timestamp(), now.timestamp_subsec_nanos())
}

/// Whether a time is one that the system clock may show when it is read.
pub open spec fn is_reading(now: Timestamp) -> bool {
    call_ensures(Timestamp::now, (), now)
}

impl Timestamp {
    #[verifier::type_invariant]
    spec fn normal(self) -> bool {
        self.nanos < NANOS_PER_SEC
    }

    /// A point in time from seconds and nanoseconds; `None` if the nanoseconds
    /// fill a second.
    pub fn new(secs: i64, nanos: u32) -> (r: Option<Timestamp>)
        ensures
            match r {
                Some(t) => nanos < NANOS_PER_SEC && t@ == secs as int * NANOS_PER_SEC as int
                    + nanos as int,
                None => nanos >= NANOS_PER_SEC,
            },
    {
        if nanos < NANOS_PER_SEC {
            Some(Timestamp { secs, nanos })
        } else {
            None
        }
    }

    /// The current time of the system clock, which does not lie before the epoch.
    pub fn now() -> (r: Timestamp)
        ensures
            r@ >= 0,
    {
        let (secs, nanos) = utc_now();
        Timestamp { secs, nanos }
    }

    /// The whole seconds since the epoch, rounded down.
    pub fn secs(&self) -> (r: i64)
        ensures
            r as int == self@ / NANOS_PER_SEC as int,
    {
        proof {
            use_type_invariant(self);
        }
        self.secs
    }

    /// The nanoseconds beyond the whole seconds.
    pub fn subsec_nanos(&self) -> (r: u32)
        ensures
            r as int == self@ % NANOS_PER_SEC as int,
    {
        proof {
            use_type_invariant(self);
        }
        self.nanos
    }

    /// Whether more than `age` has passed between `earlier` and this time.
    pub fn exceeds(&self, earlier: &Timestamp, age: &TimeDelta) -> (r: bool)
        ensures
            r == (self@ - earlier@ > age@),
    {
        let here: i128 = self.secs as i128 * 1_000_000_000i128 + self.nanos as i128;
        let there: i128 = earlier.secs as i128 * 1_000_000_000i128 + earlier.nanos as i128;
        let limit: i128 = age.secs as i128 * 1_000_000_000i128 + age.nanos as i128;
        here - there > limit
    }
}

} // verus!
