//! The native timestamp value: an absolute instant (seconds since the epoch
//! and a nanosecond part below one second) together with the offset it is
//! displayed at, plus the wall-clock fields the calendar library resolved for
//! that pair.

use vstd::prelude::*;

use crate::calendar::{
    clock_now, fields_of, resolve_fixed, resolve_local, resolve_zone, zone_fields_of, DateFields,
};
use crate::error::Error;

verus! {

/// A timestamp's deviation from UTC: UTC itself, a fixed number of seconds,
/// the machine's own zone, or a zone of the bundled database by its position
/// in the database's name table.
#[derive(Clone, Copy, Debug, PartialEq, Eq, Structural)]
pub enum Offset {
    Utc,
    Fixed(i32),
    Local,
    Named(u16),
}

impl Offset {
    /// A fixed offset of `i32::MIN` seconds is the one value the calendar
    /// library refuses.
    pub open spec fn wf(self) -> bool {
        match self {
            Offset::Fixed(n) => n != i32::MIN,
            _ => true,
        }
    }
}

/// An exact number of seconds with a fractional part, as a whole-second count
/// and a nanosecond part in `[0, 1e9)`; the value is
/// `seconds + nanos / 1e9`, so negative values carry a negative whole part
/// and a non-negative fraction.
#[derive(Clone, Copy, Debug, PartialEq, Eq, Structural)]
pub struct Fractional {
    pub seconds: i128,
    pub nanos: u32,
}

impl Fractional {
    pub open spec fn wf(self) -> bool {
        self.nanos < 1_000_000_000
    }

    /// The value scaled to whole nanoseconds.
    pub open spec fn nanos_total(self) -> int {
        self.seconds * 1_000_000_000 + self.nanos
    }
}

/// The boxed native value: the instant `(seconds, nanos)`, the offset it
/// carries, and the wall-clock decomposition of the instant at that offset.
#[derive(Clone, Copy, Debug, PartialEq, Eq, Structural)]
pub struct Timestamp {
    /// Seconds since the epoch; may be negative.
    pub seconds: i64,
    /// Subsecond nanoseconds, always in `[0, 1e9)`.
    pub nanos: u32,
    /// The offset this value displays at.
    pub offset: Offset,
    /// Wall-clock fields of `(seconds, nanos)` at `offset`.
    pub fields: DateFields,
}

/// Whether the calendar library accepts the instant at the offset. For the
/// machine's zone the environment is re-read per call, so nothing is pinned
/// there.
pub open spec fn decomposes(seconds: int, nanos: int, offset: Offset) -> bool {
    match offset {
        Offset::Utc => fields_of(seconds, nanos, 0) is Some,
        Offset::Fixed(n) => fields_of(seconds, nanos, n as int) is Some,
        Offset::Local => true,
        Offset::Named(i) => zone_fields_of(i, seconds, nanos) is Some,
    }
}

/// Whether a total nanosecond count lies in the representable range: whole
/// seconds must fit a signed 64-bit count.
pub open spec fn representable(total_nanos: int) -> bool {
    i64::MIN * 1_000_000_000 <= total_nanos <= i64::MAX * 1_000_000_000 + 999_999_999
}

/// Whether a total nanosecond count can become a timestamp at the offset:
/// representable, and its whole-second / nanosecond split accepted by the
/// calendar.
pub open spec fn admissible(total_nanos: int, offset: Offset) -> bool {
    representable(total_nanos) && decomposes(
        total_nanos / 1_000_000_000,
        total_nanos % 1_000_000_000,
        offset,
    )
}

impl Timestamp {
    /// The internal invariant: nanoseconds below one second, a well-formed
    /// offset, fields in the calendar's documented ranges, and — at UTC, a
    /// fixed offset or a named zone, where the decomposition is a function
    /// of the instant — fields that are exactly that decomposition.
    pub open spec fn wf(self) -> bool {
        &&& self.nanos < 1_000_000_000
        &&& self.offset.wf()
        &&& self.fields.in_ranges()
        &&& match self.offset {
            Offset::Utc => fields_of(self.seconds as int, self.nanos as int, 0) == Some(
                self.fields,
            ),
            Offset::Fixed(n) => fields_of(self.seconds as int, self.nanos as int, n as int)
                == Some(self.fields),
            Offset::Local => true,
            Offset::Named(i) => zone_fields_of(i, self.seconds as int, self.nanos as int) == Some(
                self.fields,
            ),
        }
    }

    /// The absolute instant in whole nanoseconds since the epoch.
    pub open spec fn instant(self) -> int {
        self.seconds * 1_000_000_000 + self.nanos
    }

    /// Two timestamps are the same instant when seconds and nanoseconds both
    /// agree; the offset plays no part.
    pub open spec fn same_instant(self, other: Timestamp) -> bool {
        self.seconds == other.seconds && self.nanos == other.nanos
    }

    /// The strict total order on instants: seconds first, then nanoseconds.
    pub open spec fn cmp_spec(self, other: Timestamp) -> int {
        if self.seconds < other.seconds {
            -1int
        } else if self.seconds > other.seconds {
            1int
        } else if self.nanos < other.nanos {
            -1int
        } else if self.nanos > other.nanos {
            1int
        } else {
            0int
        }
    }

    /// Construct a timestamp from an instant and an offset, resolving the
    /// wall-clock fields through the calendar library. Everywhere but at the
    /// machine's zone it succeeds exactly when the library's decomposition
    /// exists; the machine's zone is read from the environment per call.
    pub fn with_timespec_and_offset(seconds: i64, nanos: u32, offset: Offset) -> (r: Result<
        Timestamp,
        Error,
    >)
        requires
            nanos < 1_000_000_000,
            offset.wf(),
        ensures
            r matches Ok(t) ==> {
                &&& t.wf()
                &&& t.seconds == seconds
                &&& t.nanos == nanos
                &&& t.offset == offset
            },
            !(offset is Local) ==> (r is Ok <==> decomposes(seconds as int, nanos as int, offset)),
            r is Err ==> r == Err::<Timestamp, Error>(Error::TimeOutOfRange),
    {
        let fields = match offset {
            Offset::Utc => resolve_fixed(seconds, nanos, 0),
            Offset::Fixed(n) => resolve_fixed(seconds, nanos, n),
            Offset::Local => resolve_local(seconds, nanos),
            Offset::Named(i) => resolve_zone(i, seconds, nanos),
        };
        match fields {
            Ok(fields) => Ok(Timestamp { seconds, nanos, offset, fields }),
            Err(_) => Err(Error::TimeOutOfRange),
        }
    }

    /// Construct the current instant at the machine's zone from the wall
    /// clock.
    pub fn now() -> (r: Result<Timestamp, Error>)
        ensures
            r matches Ok(t) ==> t.wf() && t.offset is Local,
            r is Err ==> r == Err::<Timestamp, Error>(Error::TimeOutOfRange),
    {
        match clock_now() {
            Ok((seconds, nanos, fields)) => Ok(
                Timestamp { seconds, nanos, offset: Offset::Local, fields },
            ),
            Err(_) => Err(Error::TimeOutOfRange),
        }
    }

    /// The instant as whole seconds since the epoch.
    pub fn to_int(&self) -> (r: i64)
        ensures
            r == self.seconds,
    {
        self.seconds
    }

    /// The instant as an exact fractional second count.
    pub fn to_fractional(&self) -> (r: Fractional)
        requires
            self.wf(),
        ensures
            r.wf(),
            r.nanos_total() == self.instant(),
    {
        Fractional { seconds: self.seconds as i128, nanos: self.nanos }
    }

    /// Add an exact fractional duration, carrying the nanosecond part, with
    /// an explicit error instead of wrapping when the result leaves the
    /// representable range or the calendar's range.
    pub fn checked_add_frac(&self, f: Fractional) -> (r: Result<Timestamp, Error>)
        requires
            self.wf(),
            f.wf(),
        ensures
            r matches Ok(t) ==> {
                &&& t.wf()
                &&& t.offset == self.offset
                &&& t.instant() == self.instant() + f.nanos_total()
            },
            !representable(self.instant() + f.nanos_total()) ==> r == Err::<Timestamp, Error>(
                Error::TimeOverflow,
            ),
            representable(self.instant() + f.nanos_total()) && r is Err ==> r == Err::<
                Timestamp,
                Error,
            >(Error::TimeOutOfRange),
            !(self.offset is Local) ==> (r is Ok <==> admissible(
                self.instant() + f.nanos_total(),
                self.offset,
            )),
    {
        let ghost total_nanos: int = self.instant() + f.nanos_total();
        let mut ns: u32 = self.nanos + f.nanos;
        let mut carry: i128 = 0;
        if ns >= 1_000_000_000 {
            ns = ns - 1_000_000_000;
            carry = 1;
        }
        let with_carry: i128 = match f.seconds.checked_add(carry) {
            Some(x) => x,
            None => {
                assert(!representable(total_nanos));
                return Err(Error::TimeOverflow);
            },
        };
        let total: i128 = match with_carry.checked_add(self.seconds as i128) {
            Some(x) => x,
            None => {
                assert(!representable(total_nanos));
                return Err(Error::TimeOverflow);
            },
        };
        if total < i64::MIN as i128 || total > i64::MAX as i128 {
            assert(!representable(total_nanos));
            return Err(Error::TimeOverflow);
        }
        let seconds = total as i64;
        assert(seconds * 1_000_000_000 + ns == total_nanos);
        proof {
            vstd::arithmetic::div_mod::lemma_fundamental_div_mod_converse(
                total_nanos,
                1_000_000_000,
                seconds as int,
                ns as int,
            );
        }
        Self::with_timespec_and_offset(seconds, ns, self.offset)
    }

    /// Subtract an exact fractional duration, borrowing into the seconds,
    /// with an explicit error instead of wrapping.
    pub fn checked_sub_frac(&self, f: Fractional) -> (r: Result<Timestamp, Error>)
        requires
            self.wf(),
            f.wf(),
        ensures
            r matches Ok(t) ==> {
                &&& t.wf()
                &&& t.offset == self.offset
                &&& t.instant() == self.instant() - f.nanos_total()
            },
            !representable(self.instant() - f.nanos_total()) ==> r == Err::<Timestamp, Error>(
                Error::TimeOverflow,
            ),
            representable(self.instant() - f.nanos_total()) && r is Err ==> r == Err::<
                Timestamp,
                Error,
            >(Error::TimeOutOfRange),
            !(self.offset is Local) ==> (r is Ok <==> admissible(
                self.instant() - f.nanos_total(),
                self.offset,
            )),
    {
        if f.seconds == i128::MIN {
            assert(!representable(self.instant() - f.nanos_total()));
            return Err(Error::TimeOverflow);
        }
        let neg = Fractional {
            seconds: if f.nanos == 0 {
                -f.seconds
            } else {
                -f.seconds - 1
            },
            nanos: if f.nanos == 0 {
                0
            } else {
                1_000_000_000 - f.nanos
            },
        };
        assert(neg.nanos_total() == -f.nanos_total());
        self.checked_add_frac(neg)
    }

    /// Add a whole number of seconds, with an explicit error instead of
    /// wrapping.
    pub fn checked_add_i64(&self, n: i64) -> (r: Result<Timestamp, Error>)
        requires
            self.wf(),
        ensures
            r matches Ok(t) ==> {
                &&& t.wf()
                &&& t.offset == self.offset
                &&& t.nanos == self.nanos
                &&& t.seconds == self.seconds + n
            },
            self.seconds + n < i64::MIN || self.seconds + n > i64::MAX ==> r == Err::<
                Timestamp,
                Error,
            >(Error::TimeOverflow),
            i64::MIN <= self.seconds + n <= i64::MAX && r is Err ==> r == Err::<Timestamp, Error>(
                Error::TimeOutOfRange,
            ),
            !(self.offset is Local) ==> (r is Ok <==> i64::MIN <= self.seconds + n <= i64::MAX
                && decomposes(self.seconds + n, self.nanos as int, self.offset)),
    {
        match self.seconds.checked_add(n) {
            Some(seconds) => Self::with_timespec_and_offset(seconds, self.nanos, self.offset),
            None => Err(Error::TimeOverflow),
        }
    }

    /// Subtract a whole number of seconds, with an explicit error instead of
    /// wrapping.
    pub fn checked_sub_i64(&self, n: i64) -> (r: Result<Timestamp, Error>)
        requires
            self.wf(),
        ensures
            r matches Ok(t) ==> {
                &&& t.wf()
                &&& t.offset == self.offset
                &&& t.nanos == self.nanos
                &&& t.seconds == self.seconds - n
            },
            self.seconds - n < i64::MIN || self.seconds - n > i64::MAX ==> r == Err::<
                Timestamp,
                Error,
            >(Error::TimeOverflow),
            i64::MIN <= self.seconds - n <= i64::MAX && r is Err ==> r == Err::<Timestamp, Error>(
                Error::TimeOutOfRange,
            ),
            !(self.offset is Local) ==> (r is Ok <==> i64::MIN <= self.seconds - n <= i64::MAX
                && decomposes(self.seconds - n, self.nanos as int, self.offset)),
    {
        match self.seconds.checked_sub(n) {
            Some(seconds) => Self::with_timespec_and_offset(seconds, self.nanos, self.offset),
            None => Err(Error::TimeOverflow),
        }
    }

    /// The exact elapsed time from `other` to `self`, as a fractional second
    /// count. Never fails: the difference of two instants always fits.
    pub fn instant_diff(&self, other: &Timestamp) -> (r: Fractional)
        requires
            self.wf(),
            other.wf(),
        ensures
            r.wf(),
            r.nanos_total() == self.instant() - other.instant(),
    {
        let (ns, borrow): (u32, i128) = if self.nanos >= other.nanos {
            (self.nanos - other.nanos, 0)
        } else {
            (self.nanos + 1_000_000_000 - other.nanos, 1)
        };
        let seconds: i128 = self.seconds as i128 - other.seconds as i128 - borrow;
        Fractional { seconds, nanos: ns }
    }

    /// Structural equality of the two instants; the offsets play no part.
    pub fn eq_instant(&self, other: &Timestamp) -> (r: bool)
        ensures
            r == self.same_instant(*other),
    {
        self.seconds == other.seconds && self.nanos == other.nanos
    }

    /// Ordering over `(seconds, nanos)`: `-1`, `0` or `1`.
    pub fn cmp_instant(&self, other: &Timestamp) -> (r: i64)
        ensures
            r == self.cmp_spec(*other),
    {
        if self.seconds < other.seconds {
            -1
        } else if self.seconds > other.seconds {
            1
        } else if self.nanos < other.nanos {
            -1
        } else if self.nanos > other.nanos {
            1
        } else {
            0
        }
    }

    /// The same instant displayed at UTC. The receiver is untouched.
    pub fn to_utc(&self) -> (r: Result<Timestamp, Error>)
        requires
            self.wf(),
        ensures
            r matches Ok(t) ==> {
                &&& t.wf()
                &&& t.same_instant(*self)
                &&& t.offset is Utc
            },
            r is Ok <==> fields_of(self.seconds as int, self.nanos as int, 0) is Some,
            self.offset is Utc ==> r == Ok::<Timestamp, Error>(*self),
            r is Err ==> r == Err::<Timestamp, Error>(Error::TimeOutOfRange),
    {
        Self::with_timespec_and_offset(self.seconds, self.nanos, Offset::Utc)
    }

    /// Turn this value's offset to UTC in place, preserving the absolute
    /// instant.
    pub fn set_utc(&mut self) -> (r: Result<(), Error>)
        requires
            old(self).wf(),
        ensures
            r is Ok ==> {
                &&& final (self).wf()
                &&& final (self).same_instant(*old(self))
                &&& final (self).offset is Utc
            },
            r is Err ==> *final (self) == *old(self),
            r is Ok <==> fields_of(old(self).seconds as int, old(self).nanos as int, 0) is Some,
            r is Err ==> r == Err::<(), Error>(Error::TimeOutOfRange),
    {
        match self.to_utc() {
            Ok(t) => {
                *self = t;
                Ok(())
            },
            Err(e) => Err(e),
        }
    }

    pub open spec fn is_utc_spec(self) -> bool {
        self.offset is Utc
    }

    /// Whether this value displays at UTC.
    pub fn is_utc(&self) -> (r: bool)
        ensures
            r == self.is_utc_spec(),
    {
        matches!(self.offset, Offset::Utc)
    }
}

/// Whether the timestamp's wall-clock day is the weekday numbered `k`, with
/// `0` for Sunday.
pub open spec fn weekday_matches(t: Timestamp, k: int) -> bool {
    t.fields.week_day == k
}

impl Timestamp {
    /// Seconds of the wall-clock minute, `[0, 60]`.
    pub fn second(&self) -> (r: u8)
        ensures
            r == self.fields.second,
    {
        self.fields.second
    }

    /// Minutes of the wall-clock hour, `[0, 59]`.
    pub fn minute(&self) -> (r: u8)
        ensures
            r == self.fields.minute,
    {
        self.fields.minute
    }

    /// Hours of the wall-clock day, `[0, 23]`.
    pub fn hour(&self) -> (r: u8)
        ensures
            r == self.fields.hour,
    {
        self.fields.hour
    }

    /// Day of the wall-clock month, `[1, 31]`.
    pub fn day(&self) -> (r: u8)
        ensures
            r == self.fields.month_day,
    {
        self.fields.month_day
    }

    /// Wall-clock month, `[1, 12]`.
    pub fn month(&self) -> (r: u8)
        ensures
            r == self.fields.month,
    {
        self.fields.month
    }

    /// Wall-clock year.
    pub fn year(&self) -> (r: i32)
        ensures
            r == self.fields.year,
    {
        self.fields.year
    }

    /// Days since Sunday, `[0, 6]`.
    pub fn day_of_week(&self) -> (r: u8)
        ensures
            r == self.fields.week_day,
    {
        self.fields.week_day
    }

    /// Days since January 1, `[0, 365]`.
    pub fn day_of_year(&self) -> (r: u16)
        ensures
            r == self.fields.year_day,
    {
        self.fields.year_day
    }

    /// Whether daylight saving time is in force at this instant and offset.
    pub fn is_dst(&self) -> (r: bool)
        ensures
            r == self.fields.is_dst,
    {
        self.fields.is_dst
    }

    /// Whole microseconds of the subsecond part.
    pub fn microseconds(&self) -> (r: u32)
        ensures
            r == self.nanos / 1000,
    {
        self.nanos / 1000
    }

    /// Nanoseconds of the subsecond part.
    pub fn nanoseconds(&self) -> (r: u32)
        ensures
            r == self.nanos,
    {
        self.nanos
    }

    /// Whether the wall-clock day is a Sunday.
    pub fn is_sunday(&self) -> (r: bool)
        ensures
            r == weekday_matches(*self, 0),
    {
        self.fields.week_day == 0
    }

    /// Whether the wall-clock day is a Monday.
    pub fn is_monday(&self) -> (r: bool)
        ensures
            r == weekday_matches(*self, 1),
    {
        self.fields.week_day == 1
    }

    /// Whether the wall-clock day is a Tuesday.
    pub fn is_tuesday(&self) -> (r: bool)
        ensures
            r == weekday_matches(*self, 2),
    {
        self.fields.week_day == 2
    }

    /// Whether the wall-clock day is a Wednesday.
    pub fn is_wednesday(&self) -> (r: bool)
        ensures
            r == weekday_matches(*self, 3),
    {
        self.fields.week_day == 3
    }

    /// Whether the wall-clock day is a Thursday.
    pub fn is_thursday(&self) -> (r: bool)
        ensures
            r == weekday_matches(*self, 4),
    {
        self.fields.week_day == 4
    }

    /// Whether the wall-clock day is a Friday.
    pub fn is_friday(&self) -> (r: bool)
        ensures
            r == weekday_matches(*self, 5),
    {
        self.fields.week_day == 5
    }

    /// Whether the wall-clock day is a Saturday.
    pub fn is_saturday(&self) -> (r: bool)
        ensures
            r == weekday_matches(*self, 6),
    {
        self.fields.week_day == 6
    }
}

/// Of the seven weekday predicates, exactly one holds of any well-formed
/// timestamp: some weekday number in `[0, 6]` matches, and no two distinct
/// numbers match.
pub proof fn lemma_weekday_predicates_exclusive(t: Timestamp)
    requires
        t.wf(),
    ensures
        exists|k: int| 0 <= k <= 6 && weekday_matches(t, k),
        forall|i: int, j: int| weekday_matches(t, i) && weekday_matches(t, j) ==> i == j,
{
    assert(weekday_matches(t, t.fields.week_day as int));
}

/// Converting to UTC preserves the absolute instant and changes only the
/// offset, and doing it twice is the same as doing it once: at spec level,
/// any two well-formed UTC timestamps on the same instant are one value.
pub proof fn lemma_utc_conversion_stable(a: Timestamp, b: Timestamp)
    requires
        a.wf(),
        b.wf(),
        a.offset is Utc,
        b.offset is Utc,
        a.same_instant(b),
    ensures
        a == b,
{
}

/// The ordering over `(seconds, nanos)` is a strict total order, and agrees
/// with instant equality: exactly one of `<`, `==`, `>` holds of any pair,
/// the order is antisymmetric and transitive, and `0` means the same instant.
pub proof fn lemma_cmp_strict_total_order(a: Timestamp, b: Timestamp, c: Timestamp)
    ensures
        a.cmp_spec(b) == 0 <==> a.same_instant(b),
        a.cmp_spec(b) == -b.cmp_spec(a),
        a.cmp_spec(b) == -1 || a.cmp_spec(b) == 0 || a.cmp_spec(b) == 1,
        a.cmp_spec(b) == -1 && b.cmp_spec(c) == -1 ==> a.cmp_spec(c) == -1,
        a.cmp_spec(a) == 0,
{
}

/// Adding a whole-second count and then subtracting it returns to the
/// original instant: if `u` is the well-formed result of adding `n` seconds
/// to `t` at any offset but the machine's zone, then subtracting `n` seconds
/// from `u` is owed success, and its instant is `t`'s.
pub proof fn lemma_add_sub_roundtrip(t: Timestamp, u: Timestamp, n: int)
    requires
        t.wf(),
        u.wf(),
        !(t.offset is Local),
        u.offset == t.offset,
        u.nanos == t.nanos,
        u.seconds == t.seconds + n,
    ensures
        i64::MIN <= u.seconds - n <= i64::MAX,
        decomposes(u.seconds - n, u.nanos as int, u.offset),
        u.seconds - n == t.seconds,
{
}

/// Adding an exact fractional duration and then subtracting it returns to
/// the original instant: if `u` is the well-formed result of adding `f` to
/// `t` at any offset but the machine's zone, then subtracting `f` from `u`
/// is owed success, and its instant is `t`'s.
pub proof fn lemma_add_sub_frac_roundtrip(t: Timestamp, u: Timestamp, f: Fractional)
    requires
        t.wf(),
        u.wf(),
        !(t.offset is Local),
        u.offset == t.offset,
        u.instant() == t.instant() + f.nanos_total(),
    ensures
        admissible(u.instant() - f.nanos_total(), u.offset),
        u.instant() - f.nanos_total() == t.instant(),
{
    let total = t.instant();
    assert(representable(total));
    vstd::arithmetic::div_mod::lemma_fundamental_div_mod_converse(
        total,
        1_000_000_000,
        t.seconds as int,
        t.nanos as int,
    );
    assert(total / 1_000_000_000 == t.seconds as int);
    assert(total % 1_000_000_000 == t.nanos as int);
}

/// Instant equality is an equivalence: reflexive, symmetric and transitive.
pub proof fn lemma_eq_instant_equivalence(a: Timestamp, b: Timestamp, c: Timestamp)
    ensures
        a.same_instant(a),
        a.same_instant(b) == b.same_instant(a),
        a.same_instant(b) && b.same_instant(c) ==> a.same_instant(c),
{
}

} // verus!
