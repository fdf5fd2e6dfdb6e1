//! What the points and spans of time say of the numbers they were made of.

use crate::time::{Duration, TimeDelta, Timestamp};
use vstd::prelude::*;

verus! {

/// A span of time gives back the seconds and nanoseconds it was made of; there
/// is none whose nanoseconds fill a second.
pub proof fn law_duration_gives_back_its_parts(
    secs: u64,
    nanos: u32,
    made: Option<Duration>,
    as_secs: u64,
    subsec_nanos: u32,
)
    requires
        call_ensures(Duration::new, (secs, nanos), made),
        made is Some ==> call_ensures(Duration::as_secs, (&made->0,), as_secs),
        made is Some ==> call_ensures(Duration::subsec_nanos, (&made->0,), subsec_nanos),
    ensures
        made is Some <==> nanos < 1_000_000_000,
        made is Some ==> as_secs == secs && subsec_nanos == nanos,
        made is Some ==> made->0@ == secs * 1_000_000_000 + nanos,
{
}

/// A span of whole seconds has those seconds, and no nanoseconds beyond them.
pub proof fn law_duration_of_whole_seconds(secs: u64, made: Duration, as_secs: u64, nanos: u32)
    requires
        call_ensures(Duration::from_secs, (secs,), made),
        call_ensures(Duration::as_secs, (&made,), as_secs),
        call_ensures(Duration::subsec_nanos, (&made,), nanos),
    ensures
        as_secs == secs,
        nanos == 0,
        made@ == secs * 1_000_000_000,
{
}

/// A point in time gives back the seconds and nanoseconds it was made of; there
/// is none whose nanoseconds fill a second.
pub proof fn law_timestamp_gives_back_its_parts(
    secs: i64,
    nanos: u32,
    made: Option<Timestamp>,
    out_secs: i64,
    out_nanos: u32,
)
    requires
        call_ensures(Timestamp::new, (secs, nanos), made),
        made is Some ==> call_ensures(Timestamp::secs, (&made->0,), out_secs),
        made is Some ==> call_ensures(Timestamp::subsec_nanos, (&made->0,), out_nanos),
    ensures
        made is Some <==> nanos < 1_000_000_000,
        made is Some ==> out_secs == secs && out_nanos == nanos,
        made is Some ==> made->0@ == secs * 1_000_000_000 + nanos,
{
}

/// A signed span is as many nanoseconds as it was made of.
pub proof fn law_time_delta_counts_nanoseconds(
    secs: i64,
    nanos: u32,
    made: Option<TimeDelta>,
    whole: TimeDelta,
)
    requires
        call_ensures(TimeDelta::new, (secs, nanos), made),
        call_ensures(TimeDelta::seconds, (secs,), whole),
    ensures
        made is Some <==> nanos < 1_000_000_000,
        made is Some ==> made->0@ == secs * 1_000_000_000 + nanos,
        whole@ == secs * 1_000_000_000,
{
}

/// Whether more than a span has passed is a matter of the nanoseconds between
/// the two points in time; to have passed exactly is not more.
pub proof fn law_exceeds_compares_nanoseconds(
    later: (i64, u32),
    earlier: (i64, u32),
    age: (i64, u32),
    a: Timestamp,
    b: Timestamp,
    d: TimeDelta,
    r: bool,
)
    requires
        call_ensures(Timestamp::new, later, Some(a)),
        call_ensures(Timestamp::new, earlier, Some(b)),
        call_ensures(TimeDelta::new, age, Some(d)),
        call_ensures(Timestamp::exceeds, (&a, &b, &d), r),
    ensures
        r <==> (later.0 - earlier.0 - age.0) * 1_000_000_000 + (later.1 - earlier.1 - age.1) > 0,
{
}

} // verus!
