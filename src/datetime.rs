use vstd::prelude::*;

verus! {

/// Minutes in one calendar day.
pub const MINUTES_PER_DAY: u16 = 1440;

/// A calendar date and wall-clock time, as the ring's clock shows it.
#[derive(Clone, Copy, Debug, PartialEq, Eq, Structural)]
pub struct CivilDateTime {
    pub year: i32,
    pub month: u8,
    pub day: u8,
    pub hour: u8,
    pub minute: u8,
    pub second: u8,
}

/// A local date and time of day with minute resolution.
///
/// `julian_day` numbers calendar days (day 2440588 is 1970-01-01);
/// `minute_of_day` counts minutes since that day's midnight.
#[derive(Clone, Copy, Debug, PartialEq, Eq, Structural)]
pub struct LocalDateTime {
    pub julian_day: i64,
    pub minute_of_day: u16,
}

impl LocalDateTime {
    pub open spec fn wf(&self) -> bool {
        self.minute_of_day < 1440
    }
}

/// The moment `minutes` minutes (at least zero) after midnight of `day`.
pub open spec fn local_at(day: int, minutes: int) -> LocalDateTime {
    LocalDateTime { julian_day: (day + minutes / 1440) as i64, minute_of_day: (minutes % 1440) as u16 }
}

/// Builds the moment `minutes` minutes after midnight of `day`.
pub fn local_time_after(day: i64, minutes: u16) -> (r: LocalDateTime)
    requires
        day <= i64::MAX - 45,
    ensures
        r == local_at(day as int, minutes as int),
        r.wf(),
{
    LocalDateTime { julian_day: day + (minutes / MINUTES_PER_DAY) as i64, minute_of_day: minutes % MINUTES_PER_DAY }
}

/// Relies on `time::OffsetDateTime::now_local` (falling back to `now_utc` where the
/// local offset cannot be found) and `time::Date::to_julian_day`: the Julian day
/// number of the date that the local clock shows now.
#[verifier::external_body]
pub fn local_today() -> (r: i32) {
    time::OffsetDateTime::now_local()
        .unwrap_or_else(|_| time::OffsetDateTime::now_utc())
        .date()
        .to_julian_day()
}

} // verus!
