//! The boundary to the calendar library: decomposing an instant into
//! wall-clock fields, looking up named zones, and reading the wall clock.
//!
//! Everything else in this crate works on the plain values these functions
//! hand back.

use vstd::prelude::*;

verus! {

/// Wall-clock decomposition of an instant at some offset from UTC, in the
/// proleptic Gregorian calendar.
#[derive(Clone, Copy, Debug, PartialEq, Eq, Structural)]
pub struct DateFields {
    pub year: i32,
    /// Month in `[1, 12]`.
    pub month: u8,
    /// Day of the month in `[1, 31]`.
    pub month_day: u8,
    /// Hours since midnight in `[0, 23]`.
    pub hour: u8,
    /// Minutes in `[0, 59]`.
    pub minute: u8,
    /// Seconds in `[0, 60]`, with a possible leap second.
    pub second: u8,
    /// Days since Sunday in `[0, 6]`.
    pub week_day: u8,
    /// Days since January 1 in `[0, 365]`.
    pub year_day: u16,
    /// Daylight saving time indicator.
    pub is_dst: bool,
    /// Resolved offset from UTC in seconds.
    pub ut_offset: i32,
}

impl DateFields {
    /// The ranges the calendar library documents for each field.
    pub open spec fn in_ranges(self) -> bool {
        &&& 1 <= self.month <= 12
        &&& 1 <= self.month_day <= 31
        &&& self.hour <= 23
        &&& self.minute <= 59
        &&& self.second <= 60
        &&& self.week_day <= 6
        &&& self.year_day <= 365
        &&& self.ut_offset != i32::MIN
    }
}

/// What the calendar library computes for an instant at a fixed offset from
/// UTC: a function of the three arguments alone, `None` where the instant is
/// outside the representable calendar range.
pub uninterp spec fn fields_of(seconds: int, nanos: int, ut_offset: int) -> Option<DateFields>;

/// Position of a zone name in the bundled zone database (case-insensitive),
/// a function of the name alone.
pub uninterp spec fn zone_index_of(name: Seq<u8>) -> Option<u16>;

/// What the calendar library computes for an instant in the zone at a
/// position of the bundled database: the database is a compile-time
/// constant, so this is a function of the three arguments alone; `None`
/// where the position is outside the table or the instant outside the
/// representable calendar range.
pub uninterp spec fn zone_fields_of(index: u16, seconds: int, nanos: int) -> Option<DateFields>;

/// Relies on `tz::timezone::LocalTimeType::with_ut_offset` and
/// `tz::datetime::DateTime::from_timespec_and_local`: the decomposition of an
/// instant at a fixed offset is a function of the instant and the offset
/// alone; the field getters return the documented ranges, and a fixed-offset
/// local time type carries `is_dst == false` and the given offset.
#[verifier::external_body]
pub(crate) fn resolve_fixed(seconds: i64, nanos: u32, ut_offset: i32) -> (r: Result<
    DateFields,
    (),
>)
    requires
        nanos < 1_000_000_000,
        ut_offset != i32::MIN,
    ensures
        r is Ok <==> fields_of(seconds as int, nanos as int, ut_offset as int) is Some,
        r matches Ok(f) ==> {
            &&& fields_of(seconds as int, nanos as int, ut_offset as int) == Some(f)
            &&& f.in_ranges()
            &&& f.ut_offset == ut_offset
            &&& !f.is_dst
        },
{
    let ltt = match tz::timezone::LocalTimeType::with_ut_offset(ut_offset) { Ok(l) => l, Err(_) => return Err(()) };
    let dt = match tz::datetime::DateTime::from_timespec_and_local(seconds, nanos, ltt) { Ok(d) => d, Err(_) => return Err(()) };
    Ok(DateFields { year: dt.year(), month: dt.month(), month_day: dt.month_day(), hour: dt.hour(), minute: dt.minute(), second: dt.second(), week_day: dt.week_day(), year_day: dt.year_day(), is_dst: dt.local_time_type().is_dst(), ut_offset: dt.local_time_type().ut_offset() })
}

/// Relies on `tzdb::local_tz` and `tz::datetime::DateTime::from_timespec`:
/// the machine's zone decides the result, so only the documented field ranges
/// are stated of every outcome. A machine without a recognizable zone falls
/// back to UTC.
#[verifier::external_body]
pub(crate) fn resolve_local(seconds: i64, nanos: u32) -> (r: Result<DateFields, ()>)
    requires
        nanos < 1_000_000_000,
    ensures
        r matches Ok(f) ==> f.in_ranges(),
{
    let zone = tzdb::local_tz().unwrap_or(tz::timezone::TimeZoneRef::utc());
    let dt = match tz::datetime::DateTime::from_timespec(seconds, nanos, zone) { Ok(d) => d, Err(_) => return Err(()) };
    Ok(DateFields { year: dt.year(), month: dt.month(), month_day: dt.month_day(), hour: dt.hour(), minute: dt.minute(), second: dt.second(), week_day: dt.week_day(), year_day: dt.year_day(), is_dst: dt.local_time_type().is_dst(), ut_offset: dt.local_time_type().ut_offset() })
}

/// Relies on `tzdb::TZ_NAMES`, `tzdb::tz_by_name` and
/// `tz::datetime::DateTime::from_timespec`: the name table and the zone data
/// behind it are compiled-in constants and the decomposition is a pure
/// function, so the result depends on the position and the instant alone;
/// the field getters return the documented ranges.
#[verifier::external_body]
pub(crate) fn resolve_zone(index: u16, seconds: i64, nanos: u32) -> (r: Result<DateFields, ()>)
    requires
        nanos < 1_000_000_000,
    ensures
        r is Ok <==> zone_fields_of(index, seconds as int, nanos as int) is Some,
        r matches Ok(f) ==> zone_fields_of(index, seconds as int, nanos as int) == Some(f)
            && f.in_ranges(),
{
    let name = match tzdb::TZ_NAMES.get(index as usize) { Some(n) => *n, None => return Err(()) };
    let zone = match tzdb::tz_by_name(name) { Some(z) => z, None => return Err(()) };
    let dt = match tz::datetime::DateTime::from_timespec(seconds, nanos, zone) { Ok(d) => d, Err(_) => return Err(()) };
    Ok(DateFields { year: dt.year(), month: dt.month(), month_day: dt.month_day(), hour: dt.hour(), minute: dt.minute(), second: dt.second(), week_day: dt.week_day(), year_day: dt.year_day(), is_dst: dt.local_time_type().is_dst(), ut_offset: dt.local_time_type().ut_offset() })
}

/// Relies on `tzdb::tz_by_name` and `tzdb::TZ_NAMES`: whether a name denotes
/// a zone of the bundled database, and at which position, is a function of
/// the name alone.
#[verifier::external_body]
pub(crate) fn find_zone(name: &Vec<u8>) -> (r: Option<u16>)
    ensures
        r == zone_index_of(name@),
{
    if tzdb::tz_by_name(name.as_slice()).is_none() {
        return None;
    }
    let pos = tzdb::TZ_NAMES.iter().position(|n| n.as_bytes().eq_ignore_ascii_case(name));
    match pos {
        Some(i) => u16::try_from(i).ok(),
        None => None,
    }
}

/// Relies on `tz::datetime::DateTime::now` with the zone from
/// `tzdb::local_tz` (UTC where the machine has none): the clock decides, so
/// only what holds of every outcome is stated. The nanosecond part of a
/// timespec is always below one second.
#[verifier::external_body]
pub(crate) fn clock_now() -> (r: Result<(i64, u32, DateFields), ()>)
    ensures
        r matches Ok(t) ==> t.1 < 1_000_000_000 && t.2.in_ranges(),
{
    let zone = tzdb::local_tz().unwrap_or(tz::timezone::TimeZoneRef::utc());
    let dt = match tz::datetime::DateTime::now(zone) { Ok(d) => d, Err(_) => return Err(()) };
    Ok((dt.unix_time(), dt.nanoseconds(), DateFields { year: dt.year(), month: dt.month(), month_day: dt.month_day(), hour: dt.hour(), minute: dt.minute(), second: dt.second(), week_day: dt.week_day(), year_day: dt.year_day(), is_dst: dt.local_time_type().is_dst(), ut_offset: dt.local_time_type().ut_offset() }))
}

} // verus!
