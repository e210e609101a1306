//! The operation entry points the machine's dispatch table invokes: each one
//! unboxes its receiver through the checked gateway, branches on the runtime
//! type of any further operand, and either boxes a result or surfaces a
//! failure for the error translator.
//!
//! Operations on areas left unimplemented return the explicit
//! not-implemented failure — except the inspect string, which returns a
//! fixed placeholder rather than failing, so that an interactive host
//! session is not corrupted.

use vstd::prelude::*;
use vstd::string::StringExecFns;

use crate::args::{
    normalized_slots, reposition_options, resolve_subsec, subsec_split, subsec_value, unit_factor,
};
use crate::error::Error;
use crate::options::{options_offset, options_offset_spec};
use crate::timestamp::{
    admissible, decomposes, representable, weekday_matches, Offset, Timestamp,
};
use crate::value::{implicitly_convert_to_int, Value};

verus! {

/// The offset the normalized options slot resolves to: the machine's own
/// zone when no options were given, else what the mapping specifies; `None`
/// where the mapping's zone key denotes no offset.
pub open spec fn slot_offset_spec(opts: Option<Value>) -> Option<Offset> {
    match opts {
        None => Some(Offset::Local),
        Some(Value::Hash(o)) => options_offset_spec(o),
        Some(_) => None,
    }
}

/// What constructing from normalized slots returns: the subsecond pair is
/// resolved before the seconds argument is coerced, each malformed argument
/// has its failure, and on success a boxed timestamp carries the summed
/// seconds, the resolved nanoseconds and the resolved offset.
pub open spec fn at_post(
    seconds: Value,
    sub: Option<Value>,
    unit: Option<Value>,
    opts: Option<Value>,
    r: Result<Value, Error>,
) -> bool {
    &&& (unit_factor(unit) is None ==> r == Err::<Value, Error>(Error::UnexpectedUnit))
    &&& ((unit_factor(unit) is Some && subsec_value(sub) is None) ==> (r matches Err(e) && sub
        matches Some(s) && e matches Error::NoImplicitInt(n) && n@ == s.class_name_spec()))
    &&& ((subsec_split(sub, unit) is Some && !(seconds is Integer)) ==> (r matches Err(e) && e
        matches Error::NoImplicitInt(n) && n@ == seconds.class_name_spec()))
    &&& match (seconds, subsec_split(sub, unit)) {
        (Value::Integer(base), Some(split)) => {
            let secs = base + split.0;
            &&& (!(i64::MIN <= secs <= i64::MAX) ==> r == Err::<Value, Error>(Error::TimeTooLarge))
            &&& (i64::MIN <= secs <= i64::MAX ==> match slot_offset_spec(opts) {
                None => r == Err::<Value, Error>(Error::InvalidUtcOffset),
                Some(off) => {
                    &&& (r matches Ok(v) ==> v matches Value::Time(t) && t.wf() && t.seconds
                        == secs && t.nanos == split.1 && t.offset == off)
                    &&& (!(off is Local) ==> (r is Ok <==> decomposes(secs, split.1, off)))
                    &&& (r is Err ==> r == Err::<Value, Error>(Error::TimeOutOfRange))
                },
            })
        },
        _ => true,
    }
}

/// Construct the current instant at the machine's zone.
pub fn now() -> (r: Result<Value, Error>)
    ensures
        r matches Ok(v) ==> v matches Value::Time(t) && t.wf() && t.offset is Local,
        r is Err ==> r == Err::<Value, Error>(Error::TimeOutOfRange),
{
    match Timestamp::now() {
        Ok(t) => Ok(Value::box_value(t)),
        Err(e) => Err(e),
    }
}

/// Construct from a seconds value and up to three further arguments: an
/// optional subsecond count, an optional subsecond unit, and an options
/// mapping that may stand in any of the three trailing slots.
pub fn at(seconds: Value, first: Option<Value>, second: Option<Value>, third: Option<Value>) -> (r:
    Result<Value, Error>)
    ensures
        normalized_slots(first, second, third) is None ==> r == Err::<Value, Error>(
            Error::InvalidOffsetOptions,
        ),
        normalized_slots(first, second, third) matches Some(slots) ==> at_post(
            seconds,
            slots.0,
            slots.1,
            slots.2,
            r,
        ),
{
    let (sub, unit, opts) = match reposition_options(first, second, third) {
        Ok(slots) => slots,
        Err(e) => {
            return Err(e);
        },
    };
    let (subsec_secs, subsec_nanos) = match resolve_subsec(sub, unit) {
        Ok(p) => p,
        Err(e) => {
            return Err(e);
        },
    };
    let base = match implicitly_convert_to_int(&seconds) {
        Ok(b) => b,
        Err(e) => {
            return Err(e);
        },
    };
    let secs = match base.checked_add(subsec_secs) {
        Some(s) => s,
        None => {
            return Err(Error::TimeTooLarge);
        },
    };
    let off = match opts {
        None => Offset::Local,
        Some(Value::Hash(o)) => match options_offset(&o) {
            Ok(off) => off,
            Err(e) => {
                return Err(e);
            },
        },
        Some(_) => {
            proof {
                assert(false);
            }
            return Err(Error::InvalidOffsetOptions);
        },
    };
    match Timestamp::with_timespec_and_offset(secs, subsec_nanos, off) {
        Ok(t) => Ok(Value::box_value(t)),
        Err(e) => Err(e),
    }
}

/// Intentionally unimplemented: constructing from calendar fields at UTC.
pub fn mkutc(args: Vec<Value>) -> (r: Result<Value, Error>)
    ensures
        r == Err::<Value, Error>(Error::NotImplemented),
{
    let _ = args;
    Err(Error::NotImplemented)
}

/// Intentionally unimplemented: constructing from calendar fields.
pub fn mktime(args: Vec<Value>) -> (r: Result<Value, Error>)
    ensures
        r == Err::<Value, Error>(Error::NotImplemented),
{
    let _ = args;
    Err(Error::NotImplemented)
}

/// The receiver's instant as whole seconds since the epoch.
pub fn to_int(time: &Value) -> (r: Result<Value, Error>)
    ensures
        !(time is Time) ==> r == Err::<Value, Error>(Error::UninitializedTime),
        time matches Value::Time(t) ==> r == Ok::<Value, Error>(Value::Integer(t.seconds)),
{
    match time.unbox() {
        Ok(t) => Ok(Value::Integer(t.to_int())),
        Err(_) => Err(Error::UninitializedTime),
    }
}

/// The receiver's instant as an exact fractional second count.
pub fn to_float(time: &Value) -> (r: Result<Value, Error>)
    requires
        time.wf(),
    ensures
        !(time is Time) ==> r == Err::<Value, Error>(Error::UninitializedTime),
        time matches Value::Time(t) ==> (r matches Ok(v) && v matches Value::Float(f) && f.wf()
            && f.nanos_total() == t.instant()),
{
    match time.unbox() {
        Ok(t) => Ok(Value::Float(t.to_fractional())),
        Err(_) => Err(Error::UninitializedTime),
    }
}

/// Intentionally unimplemented: the instant as a rational number.
pub fn to_rational(time: &Value) -> (r: Result<Value, Error>)
    ensures
        r == Err::<Value, Error>(Error::NotImplemented),
{
    let _ = time;
    Err(Error::NotImplemented)
}

/// Order the receiver against an operand: `-1`, `0` or `1` against another
/// timestamp, a type error naming the operand's class against anything
/// else.
pub fn cmp(time: &Value, other: &Value) -> (r: Result<Value, Error>)
    ensures
        !(time is Time) ==> r == Err::<Value, Error>(Error::UninitializedTime),
        time matches Value::Time(t) ==> other matches Value::Time(o) ==> (r matches Ok(v) && v
            matches Value::Integer(c) && c == t.cmp_spec(*o)),
        time is Time && !(other is Time) ==> (r matches Err(e) && e matches
            Error::ComparisonFailed(n) && n@ == other.class_name_spec()),
{
    let t = match time.unbox() {
        Ok(t) => *t,
        Err(_) => {
            return Err(Error::UninitializedTime);
        },
    };
    match other.unbox() {
        Ok(o) => Ok(Value::Integer(t.cmp_instant(o))),
        Err(_) => Err(Error::ComparisonFailed(other.class_name())),
    }
}

/// Structural equality of instants: `true` exactly for another timestamp on
/// the same instant, `false` for any other value — never a failure for a
/// foreign operand.
pub fn eql(time: &Value, other: &Value) -> (r: Result<Value, Error>)
    ensures
        !(time is Time) ==> r == Err::<Value, Error>(Error::UninitializedTime),
        time matches Value::Time(t) ==> other matches Value::Time(o) ==> r == Ok::<Value, Error>(
            Value::Boolean(t.same_instant(*o)),
        ),
        time is Time && !(other is Time) ==> r == Ok::<Value, Error>(Value::Boolean(false)),
{
    let t = match time.unbox() {
        Ok(t) => *t,
        Err(_) => {
            return Err(Error::UninitializedTime);
        },
    };
    match other.unbox() {
        Ok(o) => Ok(Value::Boolean(t.eq_instant(o))),
        Err(_) => Ok(Value::Boolean(false)),
    }
}

/// Intentionally unimplemented: hashing.
pub fn hash(time: &Value) -> (r: Result<Value, Error>)
    ensures
        r == Err::<Value, Error>(Error::NotImplemented),
{
    let _ = time;
    Err(Error::NotImplemented)
}

/// Intentionally unimplemented: re-initializing an allocated value.
pub fn initialize(time: &Value, args: Vec<Value>) -> (r: Result<Value, Error>)
    ensures
        r == Err::<Value, Error>(Error::NotImplemented),
{
    let _ = time;
    let _ = args;
    Err(Error::NotImplemented)
}

/// Overwrite the receiver's cell with a structural copy of the source's
/// payload; afterwards the two cells hold equal, unaliased values.
pub fn initialize_copy(time: &mut Value, from: &Value) -> (r: Result<(), Error>)
    ensures
        !(from is Time) ==> r == Err::<(), Error>(Error::UninitializedTime) && *final (time)
            == *old(time),
        from matches Value::Time(t) ==> r is Ok && *final (time) == Value::Time(*t),
{
    let t = match from.unbox() {
        Ok(t) => *t,
        Err(_) => {
            return Err(Error::UninitializedTime);
        },
    };
    Value::replace_in_place(time, t);
    Ok(())
}

/// Intentionally unimplemented: turning the receiver to the local zone in
/// place.
pub fn mutate_to_local(time: &mut Value, offset: Option<Value>) -> (r: Result<(), Error>)
    ensures
        r == Err::<(), Error>(Error::NotImplemented),
        *final (time) == *old(time),
{
    let _ = time;
    let _ = offset;
    Err(Error::NotImplemented)
}

/// Turn the receiver's offset to UTC in place, preserving the absolute
/// instant.
pub fn mutate_to_utc(time: &mut Value) -> (r: Result<(), Error>)
    requires
        old(time).wf(),
    ensures
        !(*old(time) is Time) ==> r == Err::<(), Error>(Error::UninitializedTime) && *final (time)
            == *old(time),
        *old(time) matches Value::Time(t) ==> {
            &&& (r is Ok <==> decomposes(t.seconds as int, t.nanos as int, Offset::Utc))
            &&& (r is Ok ==> (*final (time) matches Value::Time(u) && u.wf() && u.same_instant(t)
                && u.offset is Utc))
            &&& (r is Err ==> *final (time) == *old(time) && r == Err::<(), Error>(
                Error::TimeOutOfRange,
            ))
        },
{
    let t = match time.unbox() {
        Ok(t) => *t,
        Err(_) => {
            return Err(Error::UninitializedTime);
        },
    };
    match t.to_utc() {
        Ok(u) => {
            Value::replace_in_place(time, u);
            Ok(())
        },
        Err(e) => Err(e),
    }
}

/// Intentionally unimplemented: a new value at the local zone.
pub fn as_local(time: &Value, offset: Option<Value>) -> (r: Result<Value, Error>)
    ensures
        r == Err::<Value, Error>(Error::NotImplemented),
{
    let _ = time;
    let _ = offset;
    Err(Error::NotImplemented)
}

/// A new boxed value on the receiver's instant displayed at UTC; the
/// receiver itself is untouched.
pub fn as_utc(time: &Value) -> (r: Result<Value, Error>)
    requires
        time.wf(),
    ensures
        !(time is Time) ==> r == Err::<Value, Error>(Error::UninitializedTime),
        time matches Value::Time(t) ==> {
            &&& (r is Ok <==> decomposes(t.seconds as int, t.nanos as int, Offset::Utc))
            &&& (r matches Ok(v) ==> v matches Value::Time(u) && u.wf() && u.same_instant(*t)
                && u.offset is Utc)
            &&& (r is Err ==> r == Err::<Value, Error>(Error::TimeOutOfRange))
        },
{
    let t = match time.unbox() {
        Ok(t) => *t,
        Err(_) => {
            return Err(Error::UninitializedTime);
        },
    };
    match t.to_utc() {
        Ok(u) => Ok(Value::box_value(u)),
        Err(e) => Err(e),
    }
}

/// Intentionally unimplemented: the asctime rendering.
pub fn asctime(time: &Value) -> (r: Result<Value, Error>)
    ensures
        r == Err::<Value, Error>(Error::NotImplemented),
{
    let _ = time;
    Err(Error::NotImplemented)
}

/// The inspect placeholder: a fixed string rather than a failure, so an
/// interactive host session is never corrupted by inspecting a timestamp.
pub fn to_string(time: &Value) -> (r: Result<Value, Error>)
    ensures
        r matches Ok(v) && v matches Value::Str(s) && s@ == "Time<Time#inspect is not implemented>"@,
{
    let _ = time;
    Ok(Value::Str(String::from_str("Time<Time#inspect is not implemented>")))
}

/// Intentionally unimplemented: decomposition into a calendar array.
pub fn to_array(time: &Value) -> (r: Result<Value, Error>)
    ensures
        r == Err::<Value, Error>(Error::NotImplemented),
{
    let _ = time;
    Err(Error::NotImplemented)
}

/// What shifting a receiver's instant to a given total returns: a boxed
/// timestamp on that instant at the receiver's offset, the dedicated
/// overflow failure where the total leaves the representable range, and the
/// out-of-range failure where the calendar refuses it.
pub open spec fn frac_shift_post(t: Timestamp, total: int, r: Result<Value, Error>) -> bool {
    &&& (r matches Ok(v) ==> v matches Value::Time(u) && u.wf() && u.offset == t.offset
        && u.instant() == total)
    &&& (!representable(total) ==> r == Err::<Value, Error>(Error::TimeOverflow))
    &&& (representable(total) && r is Err ==> r == Err::<Value, Error>(Error::TimeOutOfRange))
    &&& (!(t.offset is Local) ==> (r is Ok <==> admissible(total, t.offset)))
}

/// What shifting a receiver by whole seconds returns: a boxed timestamp with
/// the shifted seconds and unchanged nanoseconds, the dedicated overflow
/// failure where the shifted seconds leave the representable range, and the
/// out-of-range failure where the calendar refuses them.
pub open spec fn secs_shift_post(t: Timestamp, secs: int, r: Result<Value, Error>) -> bool {
    &&& (r matches Ok(v) ==> v matches Value::Time(u) && u.wf() && u.offset == t.offset && u.nanos
        == t.nanos && u.seconds == secs)
    &&& (!(i64::MIN <= secs <= i64::MAX) ==> r == Err::<Value, Error>(Error::TimeOverflow))
    &&& (i64::MIN <= secs <= i64::MAX && r is Err ==> r == Err::<Value, Error>(
        Error::TimeOutOfRange,
    ))
    &&& (!(t.offset is Local) ==> (r is Ok <==> i64::MIN <= secs <= i64::MAX && decomposes(
        secs,
        t.nanos as int,
        t.offset,
    )))
}

/// Add an operand as elapsed time: another timestamp is rejected as
/// meaningless, a float or integer adds with an explicit overflow failure,
/// anything else is a type error.
pub fn plus(time: &Value, other: &Value) -> (r: Result<Value, Error>)
    requires
        time.wf(),
        other.wf(),
    ensures
        !(time is Time) ==> r == Err::<Value, Error>(Error::UninitializedTime),
        time matches Value::Time(t) ==> match *other {
            Value::Time(_) => r == Err::<Value, Error>(Error::TimePlusTime),
            Value::Float(f) => frac_shift_post(*t, t.instant() + f.nanos_total(), r),
            Value::Integer(i) => secs_shift_post(*t, t.seconds + i, r),
            _ => r == Err::<Value, Error>(Error::NotExactNumber),
        },
{
    let t = match time.unbox() {
        Ok(t) => *t,
        Err(_) => {
            return Err(Error::UninitializedTime);
        },
    };
    match other {
        Value::Time(_) => Err(Error::TimePlusTime),
        Value::Float(f) => match t.checked_add_frac(*f) {
            Ok(u) => Ok(Value::box_value(u)),
            Err(e) => Err(e),
        },
        Value::Integer(i) => match t.checked_add_i64(*i) {
            Ok(u) => Ok(Value::box_value(u)),
            Err(e) => Err(e),
        },
        _ => Err(Error::NotExactNumber),
    }
}

/// Subtract an operand: another timestamp yields the exact elapsed-time
/// difference (not reboxed), a float or integer subtracts with an explicit
/// overflow failure, anything else is a type error.
pub fn minus(time: &Value, other: &Value) -> (r: Result<Value, Error>)
    requires
        time.wf(),
        other.wf(),
    ensures
        !(time is Time) ==> r == Err::<Value, Error>(Error::UninitializedTime),
        time matches Value::Time(t) ==> match *other {
            Value::Time(o) => (r matches Ok(v) && v matches Value::Float(d) && d.wf()
                && d.nanos_total() == t.instant() - o.instant()),
            Value::Float(f) => frac_shift_post(*t, t.instant() - f.nanos_total(), r),
            Value::Integer(i) => secs_shift_post(*t, t.seconds - i, r),
            _ => r == Err::<Value, Error>(Error::NotExactNumber),
        },
{
    let t = match time.unbox() {
        Ok(t) => *t,
        Err(_) => {
            return Err(Error::UninitializedTime);
        },
    };
    match other {
        Value::Time(o) => Ok(Value::Float(t.instant_diff(o))),
        Value::Float(f) => match t.checked_sub_frac(*f) {
            Ok(u) => Ok(Value::box_value(u)),
            Err(e) => Err(e),
        },
        Value::Integer(i) => match t.checked_sub_i64(*i) {
            Ok(u) => Ok(Value::box_value(u)),
            Err(e) => Err(e),
        },
        _ => Err(Error::NotExactNumber),
    }
}

/// The successor instant: one whole second later.
pub fn succ(time: &Value) -> (r: Result<Value, Error>)
    requires
        time.wf(),
    ensures
        !(time is Time) ==> r == Err::<Value, Error>(Error::UninitializedTime),
        time matches Value::Time(t) ==> secs_shift_post(*t, t.seconds + 1, r),
{
    plus(time, &Value::Integer(1))
}

/// Intentionally unimplemented: rounding the subsecond part.
pub fn round(time: &Value, num_digits: Option<Value>) -> (r: Result<Value, Error>)
    ensures
        r == Err::<Value, Error>(Error::NotImplemented),
{
    let _ = time;
    let _ = num_digits;
    Err(Error::NotImplemented)
}

/// Seconds of the receiver's wall-clock minute.
pub fn second(time: &Value) -> (r: Result<Value, Error>)
    ensures
        !(time is Time) ==> r == Err::<Value, Error>(Error::UninitializedTime),
        time matches Value::Time(t) ==> r == Ok::<Value, Error>(
            Value::Integer(t.fields.second as i64),
        ),
{
    match time.unbox() {
        Ok(t) => Ok(Value::Integer(t.second() as i64)),
        Err(_) => Err(Error::UninitializedTime),
    }
}

/// Minutes of the receiver's wall-clock hour.
pub fn minute(time: &Value) -> (r: Result<Value, Error>)
    ensures
        !(time is Time) ==> r == Err::<Value, Error>(Error::UninitializedTime),
        time matches Value::Time(t) ==> r == Ok::<Value, Error>(
            Value::Integer(t.fields.minute as i64),
        ),
{
    match time.unbox() {
        Ok(t) => Ok(Value::Integer(t.minute() as i64)),
        Err(_) => Err(Error::UninitializedTime),
    }
}

/// Hours of the receiver's wall-clock day.
pub fn hour(time: &Value) -> (r: Result<Value, Error>)
    ensures
        !(time is Time) ==> r == Err::<Value, Error>(Error::UninitializedTime),
        time matches Value::Time(t) ==> r == Ok::<Value, Error>(
            Value::Integer(t.fields.hour as i64),
        ),
{
    match time.unbox() {
        Ok(t) => Ok(Value::Integer(t.hour() as i64)),
        Err(_) => Err(Error::UninitializedTime),
    }
}

/// Day of the receiver's wall-clock month.
pub fn day(time: &Value) -> (r: Result<Value, Error>)
    ensures
        !(time is Time) ==> r == Err::<Value, Error>(Error::UninitializedTime),
        time matches Value::Time(t) ==> r == Ok::<Value, Error>(
            Value::Integer(t.fields.month_day as i64),
        ),
{
    match time.unbox() {
        Ok(t) => Ok(Value::Integer(t.day() as i64)),
        Err(_) => Err(Error::UninitializedTime),
    }
}

/// The receiver's wall-clock month.
pub fn month(time: &Value) -> (r: Result<Value, Error>)
    ensures
        !(time is Time) ==> r == Err::<Value, Error>(Error::UninitializedTime),
        time matches Value::Time(t) ==> r == Ok::<Value, Error>(
            Value::Integer(t.fields.month as i64),
        ),
{
    match time.unbox() {
        Ok(t) => Ok(Value::Integer(t.month() as i64)),
        Err(_) => Err(Error::UninitializedTime),
    }
}

/// The receiver's wall-clock year.
pub fn year(time: &Value) -> (r: Result<Value, Error>)
    ensures
        !(time is Time) ==> r == Err::<Value, Error>(Error::UninitializedTime),
        time matches Value::Time(t) ==> r == Ok::<Value, Error>(
            Value::Integer(t.fields.year as i64),
        ),
{
    match time.unbox() {
        Ok(t) => Ok(Value::Integer(t.year() as i64)),
        Err(_) => Err(Error::UninitializedTime),
    }
}

/// Days since Sunday of the receiver's wall-clock day.
pub fn weekday(time: &Value) -> (r: Result<Value, Error>)
    ensures
        !(time is Time) ==> r == Err::<Value, Error>(Error::UninitializedTime),
        time matches Value::Time(t) ==> r == Ok::<Value, Error>(
            Value::Integer(t.fields.week_day as i64),
        ),
{
    match time.unbox() {
        Ok(t) => Ok(Value::Integer(t.day_of_week() as i64)),
        Err(_) => Err(Error::UninitializedTime),
    }
}

/// Days since January 1 of the receiver's wall-clock day.
pub fn year_day(time: &Value) -> (r: Result<Value, Error>)
    ensures
        !(time is Time) ==> r == Err::<Value, Error>(Error::UninitializedTime),
        time matches Value::Time(t) ==> r == Ok::<Value, Error>(
            Value::Integer(t.fields.year_day as i64),
        ),
{
    match time.unbox() {
        Ok(t) => Ok(Value::Integer(t.day_of_year() as i64)),
        Err(_) => Err(Error::UninitializedTime),
    }
}

/// Whether daylight saving time is in force for the receiver.
pub fn is_dst(time: &Value) -> (r: Result<Value, Error>)
    ensures
        !(time is Time) ==> r == Err::<Value, Error>(Error::UninitializedTime),
        time matches Value::Time(t) ==> r == Ok::<Value, Error>(Value::Boolean(t.fields.is_dst)),
{
    match time.unbox() {
        Ok(t) => Ok(Value::Boolean(t.is_dst())),
        Err(_) => Err(Error::UninitializedTime),
    }
}

/// Intentionally unimplemented: the zone's name.
pub fn timezone(time: &Value) -> (r: Result<Value, Error>)
    ensures
        r == Err::<Value, Error>(Error::NotImplemented),
{
    let _ = time;
    Err(Error::NotImplemented)
}

/// Intentionally unimplemented: the offset from UTC in seconds.
pub fn utc_offset(time: &Value) -> (r: Result<Value, Error>)
    ensures
        r == Err::<Value, Error>(Error::NotImplemented),
{
    let _ = time;
    Err(Error::NotImplemented)
}

/// Whether the receiver displays at UTC.
pub fn is_utc(time: &Value) -> (r: Result<Value, Error>)
    ensures
        !(time is Time) ==> r == Err::<Value, Error>(Error::UninitializedTime),
        time matches Value::Time(t) ==> r == Ok::<Value, Error>(
            Value::Boolean(t.offset is Utc),
        ),
{
    match time.unbox() {
        Ok(t) => Ok(Value::Boolean(t.is_utc())),
        Err(_) => Err(Error::UninitializedTime),
    }
}

/// Whether the receiver's wall-clock day is a Sunday.
pub fn is_sunday(time: &Value) -> (r: Result<Value, Error>)
    ensures
        !(time is Time) ==> r == Err::<Value, Error>(Error::UninitializedTime),
        time matches Value::Time(t) ==> r == Ok::<Value, Error>(
            Value::Boolean(weekday_matches(*t, 0)),
        ),
{
    match time.unbox() {
        Ok(t) => Ok(Value::Boolean(t.is_sunday())),
        Err(_) => Err(Error::UninitializedTime),
    }
}

/// Whether the receiver's wall-clock day is a Monday.
pub fn is_monday(time: &Value) -> (r: Result<Value, Error>)
    ensures
        !(time is Time) ==> r == Err::<Value, Error>(Error::UninitializedTime),
        time matches Value::Time(t) ==> r == Ok::<Value, Error>(
            Value::Boolean(weekday_matches(*t, 1)),
        ),
{
    match time.unbox() {
        Ok(t) => Ok(Value::Boolean(t.is_monday())),
        Err(_) => Err(Error::UninitializedTime),
    }
}

/// Whether the receiver's wall-clock day is a Tuesday.
pub fn is_tuesday(time: &Value) -> (r: Result<Value, Error>)
    ensures
        !(time is Time) ==> r == Err::<Value, Error>(Error::UninitializedTime),
        time matches Value::Time(t) ==> r == Ok::<Value, Error>(
            Value::Boolean(weekday_matches(*t, 2)),
        ),
{
    match time.unbox() {
        Ok(t) => Ok(Value::Boolean(t.is_tuesday())),
        Err(_) => Err(Error::UninitializedTime),
    }
}

/// Whether the receiver's wall-clock day is a Wednesday.
pub fn is_wednesday(time: &Value) -> (r: Result<Value, Error>)
    ensures
        !(time is Time) ==> r == Err::<Value, Error>(Error::UninitializedTime),
        time matches Value::Time(t) ==> r == Ok::<Value, Error>(
            Value::Boolean(weekday_matches(*t, 3)),
        ),
{
    match time.unbox() {
        Ok(t) => Ok(Value::Boolean(t.is_wednesday())),
        Err(_) => Err(Error::UninitializedTime),
    }
}

/// Whether the receiver's wall-clock day is a Thursday.
pub fn is_thursday(time: &Value) -> (r: Result<Value, Error>)
    ensures
        !(time is Time) ==> r == Err::<Value, Error>(Error::UninitializedTime),
        time matches Value::Time(t) ==> r == Ok::<Value, Error>(
            Value::Boolean(weekday_matches(*t, 4)),
        ),
{
    match time.unbox() {
        Ok(t) => Ok(Value::Boolean(t.is_thursday())),
        Err(_) => Err(Error::UninitializedTime),
    }
}

/// Whether the receiver's wall-clock day is a Friday.
pub fn is_friday(time: &Value) -> (r: Result<Value, Error>)
    ensures
        !(time is Time) ==> r == Err::<Value, Error>(Error::UninitializedTime),
        time matches Value::Time(t) ==> r == Ok::<Value, Error>(
            Value::Boolean(weekday_matches(*t, 5)),
        ),
{
    match time.unbox() {
        Ok(t) => Ok(Value::Boolean(t.is_friday())),
        Err(_) => Err(Error::UninitializedTime),
    }
}

/// Whether the receiver's wall-clock day is a Saturday.
pub fn is_saturday(time: &Value) -> (r: Result<Value, Error>)
    ensures
        !(time is Time) ==> r == Err::<Value, Error>(Error::UninitializedTime),
        time matches Value::Time(t) ==> r == Ok::<Value, Error>(
            Value::Boolean(weekday_matches(*t, 6)),
        ),
{
    match time.unbox() {
        Ok(t) => Ok(Value::Boolean(t.is_saturday())),
        Err(_) => Err(Error::UninitializedTime),
    }
}

/// Whole microseconds of the receiver's subsecond part.
pub fn microsecond(time: &Value) -> (r: Result<Value, Error>)
    ensures
        !(time is Time) ==> r == Err::<Value, Error>(Error::UninitializedTime),
        time matches Value::Time(t) ==> r == Ok::<Value, Error>(
            Value::Integer((t.nanos / 1000) as i64),
        ),
{
    match time.unbox() {
        Ok(t) => Ok(Value::Integer(t.microseconds() as i64)),
        Err(_) => Err(Error::UninitializedTime),
    }
}

/// Nanoseconds of the receiver's subsecond part.
pub fn nanosecond(time: &Value) -> (r: Result<Value, Error>)
    ensures
        !(time is Time) ==> r == Err::<Value, Error>(Error::UninitializedTime),
        time matches Value::Time(t) ==> r == Ok::<Value, Error>(Value::Integer(t.nanos as i64)),
{
    match time.unbox() {
        Ok(t) => Ok(Value::Integer(t.nanoseconds() as i64)),
        Err(_) => Err(Error::UninitializedTime),
    }
}

/// Intentionally unimplemented: the subsecond part as a rational number.
pub fn subsec(time: &Value) -> (r: Result<Value, Error>)
    ensures
        r == Err::<Value, Error>(Error::NotImplemented),
{
    let _ = time;
    Err(Error::NotImplemented)
}

/// Intentionally unimplemented: format-string rendering.
pub fn strftime(time: &Value, format: &Value) -> (r: Result<Value, Error>)
    ensures
        r == Err::<Value, Error>(Error::NotImplemented),
{
    let _ = time;
    let _ = format;
    Err(Error::NotImplemented)
}

} // verus!
