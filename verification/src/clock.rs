//! Points in time and runtime clocks.

use vstd::prelude::*;
use crate::identity::RuntimeInstanceId;

verus! {

/// A point in time: whole seconds since the Unix epoch, then nanoseconds.
#[derive(Clone, Copy, Debug, PartialEq, Eq, Structural)]
pub struct Timestamp {
    pub seconds: i64,
    pub nanoseconds: u32,
}

impl Timestamp {
    /// Whether `self` is no later than `other`.
    #[verifier::allow_in_spec]
    pub fn not_after(self, other: Timestamp) -> bool
        returns
            self.seconds < other.seconds || (self.seconds == other.seconds && self.nanoseconds
                <= other.nanoseconds),
    {
        self.seconds < other.seconds || (self.seconds == other.seconds && self.nanoseconds
            <= other.nanoseconds)
    }

    /// Whether `self` is earlier than `other`.
    #[verifier::allow_in_spec]
    pub fn before(self, other: Timestamp) -> bool
        returns
            !other.not_after(self),
    {
        !other.not_after(self)
    }
}

/// A reading of a runtime's monotonic clock and of its wall clock.
#[derive(Clone, Copy, Debug, PartialEq, Eq, Structural)]
pub struct RuntimeClockReading {
    pub runtime_instance_id: RuntimeInstanceId,
    pub monotonic_nanos: u64,
    pub observed_at: Timestamp,
}

/// Whether both readings are of one runtime and the second is no earlier on either clock.
#[verifier::allow_in_spec]
pub fn same_runtime_not_before(earlier: &RuntimeClockReading, later: &RuntimeClockReading) -> bool
    returns
        earlier.runtime_instance_id == later.runtime_instance_id && earlier.monotonic_nanos
            <= later.monotonic_nanos && earlier.observed_at.not_after(later.observed_at),
{
    earlier.runtime_instance_id == later.runtime_instance_id && earlier.monotonic_nanos
        <= later.monotonic_nanos && earlier.observed_at.not_after(later.observed_at)
}

/// The first second of the earliest representable day.
pub const FIRST_SECOND: i64 = -8_334_601_228_800;

/// The last second of the latest representable day.
pub const LAST_SECOND: i64 = 8_210_266_876_799;

/// The longest time that can be added, in seconds.
pub const MAX_DELTA_SECONDS: i64 = 9_223_372_036_854_775;

/// Whether a point in time exists on the calendar: its day does, and its nanoseconds stay below a
/// second, or below two within a leap second.
pub open spec fn on_calendar(at: Timestamp) -> bool {
    &&& FIRST_SECOND <= at.seconds <= LAST_SECOND
    &&& at.nanoseconds < 1_000_000_000 || (at.nanoseconds < 2_000_000_000 && at.seconds % 60 == 59)
}

/// The point in time `seconds` later; `None` where it is not on the calendar. Adding a second or
/// more to a point within a leap second leaves the leap second.
pub open spec fn seconds_later(at: Timestamp, seconds: i64) -> Option<Timestamp> {
    if !on_calendar(at) || at.seconds + seconds > LAST_SECOND {
        None
    } else if seconds > 0 && at.nanoseconds >= 1_000_000_000 {
        Some(
            Timestamp {
                seconds: (at.seconds + seconds) as i64,
                nanoseconds: (at.nanoseconds - 1_000_000_000) as u32,
            },
        )
    } else {
        Some(Timestamp { seconds: (at.seconds + seconds) as i64, nanoseconds: at.nanoseconds })
    }
}

/// Adds whole seconds to a point in time, by `chrono::DateTime::<Utc>::checked_add_signed`. It is
/// believed of it that it adds on the proleptic Gregorian calendar without time zones, that it
/// gives `None` exactly where the result lies outside the days that the crate represents, and that
/// it resolves a leap second as `seconds_later` says. `chrono::TimeDelta::seconds` panics beyond
/// `MAX_DELTA_SECONDS`, which is left out.
#[verifier::external_body]
pub(crate) fn checked_add_seconds(at: Timestamp, seconds: i64) -> (r: Option<Timestamp>)
    requires
        0 <= seconds <= MAX_DELTA_SECONDS,
    ensures
        r == seconds_later(at, seconds),
{
    let moment = chrono::DateTime::<chrono::Utc>::from_timestamp(at.seconds, at.nanoseconds)?;
    let later = moment.checked_add_signed(chrono::TimeDelta::seconds(seconds))?;
    Some(Timestamp { seconds: later.timestamp(), nanoseconds: later.timestamp_subsec_nanos() })
}

/// Points in time are in one order: every two can be compared, none is before itself, what is before
/// a later one is before it too, and a second later is later whatever the nanoseconds.
pub proof fn law_time_is_one_line(first: Timestamp, second: Timestamp, third: Timestamp)
    ensures
        first.not_after(second) || second.not_after(first),
        first.not_after(second) && second.not_after(first) <==> first == second,
        first.not_after(second) && second.not_after(third) ==> first.not_after(third),
        first.before(second) <==> first.not_after(second) && first != second,
        first.seconds < second.seconds ==> first.before(second),
        first.seconds == second.seconds ==> (first.before(second) <==> first.nanoseconds
            < second.nanoseconds),
{
}

/// A reading is not before another only on one runtime and on both of its clocks.
pub proof fn law_readings_compare_on_both_clocks(
    earlier: RuntimeClockReading,
    later: RuntimeClockReading,
)
    ensures
        same_runtime_not_before(&earlier, &later) ==> {
            &&& later.runtime_instance_id == earlier.runtime_instance_id
            &&& earlier.monotonic_nanos <= later.monotonic_nanos
            &&& !later.observed_at.before(earlier.observed_at)
        },
        earlier.runtime_instance_id == later.runtime_instance_id && later.monotonic_nanos
            >= earlier.monotonic_nanos && !later.observed_at.before(earlier.observed_at)
            ==> same_runtime_not_before(&earlier, &later),
        same_runtime_not_before(&earlier, &later) && same_runtime_not_before(&later, &earlier)
            ==> earlier == later,
{
}

} // verus!
