use time_trampoline::error::{Error, ExceptionKind};
use time_trampoline::options::Options;
use time_trampoline::timestamp::{Fractional, Offset, Timestamp};
use time_trampoline::trampoline::{
    as_local, as_utc, asctime, at, cmp, day, eql, hash, hour, initialize, initialize_copy, is_dst,
    is_friday, is_monday, is_saturday, is_sunday, is_thursday, is_tuesday, is_utc, is_wednesday,
    microsecond, minus, minute, mktime, mkutc, month, mutate_to_local, mutate_to_utc, nanosecond,
    now, plus, round, second, strftime, subsec, succ, timezone, to_array, to_float, to_int,
    to_rational, to_string, utc_offset, weekday, year, year_day,
};
use time_trampoline::value::Value;

fn utc_opts() -> Value {
    Value::Hash(Options {
        zone: Some(b"Z".to_vec()),
    })
}

fn zone_opts(name: &[u8]) -> Value {
    Value::Hash(Options {
        zone: Some(name.to_vec()),
    })
}

fn at_utc(seconds: i64) -> Value {
    at(Value::Integer(seconds), Some(utc_opts()), None, None).unwrap()
}

fn seconds_of(v: &Value) -> i64 {
    match to_int(v).unwrap() {
        Value::Integer(s) => s,
        other => panic!("expected an integer, got {other:?}"),
    }
}

fn nanos_of(v: &Value) -> i64 {
    match nanosecond(v).unwrap() {
        Value::Integer(n) => n,
        other => panic!("expected an integer, got {other:?}"),
    }
}

fn int_of(r: Result<Value, Error>) -> i64 {
    match r.unwrap() {
        Value::Integer(n) => n,
        other => panic!("expected an integer, got {other:?}"),
    }
}

fn bool_of(r: Result<Value, Error>) -> bool {
    match r.unwrap() {
        Value::Boolean(b) => b,
        other => panic!("expected a boolean, got {other:?}"),
    }
}

#[test]
fn construction_reads_back_normalized() {
    let t = at(Value::Integer(10), None, None, None).unwrap();
    assert_eq!(seconds_of(&t), 10);
    assert_eq!(nanos_of(&t), 0);

    // Default subsecond unit is microseconds.
    let t = at(Value::Integer(10), Some(Value::Integer(1)), None, None).unwrap();
    assert_eq!(seconds_of(&t), 10);
    assert_eq!(nanos_of(&t), 1000);

    let t = at(
        Value::Integer(10),
        Some(Value::Integer(1)),
        Some(Value::Symbol(b"nsec".to_vec())),
        None,
    )
    .unwrap();
    assert_eq!(seconds_of(&t), 10);
    assert_eq!(nanos_of(&t), 1);

    let t = at(
        Value::Integer(10),
        Some(Value::Integer(7)),
        Some(Value::Symbol(b"msec".to_vec())),
        None,
    )
    .unwrap();
    assert_eq!(nanos_of(&t), 7_000_000);
}

#[test]
fn construction_carries_subseconds_into_seconds() {
    // 1_500_000 microseconds are 1.5 seconds.
    let t = at(Value::Integer(10), Some(Value::Integer(1_500_000)), None, None).unwrap();
    assert_eq!(seconds_of(&t), 11);
    assert_eq!(nanos_of(&t), 500_000_000);

    // A negative count borrows from the whole seconds.
    let t = at(
        Value::Integer(0),
        Some(Value::Integer(-1)),
        Some(Value::Symbol(b"nsec".to_vec())),
        None,
    )
    .unwrap();
    assert_eq!(seconds_of(&t), -1);
    assert_eq!(nanos_of(&t), 999_999_999);
}

#[test]
fn argument_matrix_resolves_documented_slots() {
    // (s)
    assert_eq!(nanos_of(&at(Value::Integer(0), None, None, None).unwrap()), 0);
    // (s, subsec)
    let t = at(Value::Integer(0), Some(Value::Integer(3)), None, None).unwrap();
    assert_eq!(nanos_of(&t), 3000);
    // (s, subsec, unit)
    let t = at(
        Value::Integer(0),
        Some(Value::Integer(3)),
        Some(Value::Symbol(b"nsec".to_vec())),
        None,
    )
    .unwrap();
    assert_eq!(nanos_of(&t), 3);
    // (s, options): the mapping in the second slot is the options.
    let t = at(Value::Integer(0), Some(zone_opts(b"A")), None, None).unwrap();
    assert_eq!(nanos_of(&t), 0);
    assert_eq!(int_of(hour(&t)), 1);
    // (s, subsec, options): the mapping in the third slot is the options.
    let t = at(
        Value::Integer(0),
        Some(Value::Integer(5)),
        Some(zone_opts(b"A")),
        None,
    )
    .unwrap();
    assert_eq!(nanos_of(&t), 5000);
    assert_eq!(int_of(hour(&t)), 1);
    // (s, subsec, unit, options)
    let t = at(
        Value::Integer(0),
        Some(Value::Integer(5)),
        Some(Value::Symbol(b"nsec".to_vec())),
        Some(zone_opts(b"A")),
    )
    .unwrap();
    assert_eq!(nanos_of(&t), 5);
    assert_eq!(int_of(hour(&t)), 1);
}

#[test]
fn fourth_argument_must_be_a_mapping() {
    let r = at(
        Value::Integer(0),
        Some(Value::Integer(5)),
        Some(Value::Symbol(b"nsec".to_vec())),
        Some(Value::Integer(9)),
    );
    let e = r.unwrap_err();
    assert_eq!(e, Error::InvalidOffsetOptions);
    assert_eq!(e.kind(), ExceptionKind::Argument);
    assert_eq!(e.message(), "invalid offset options");
}

#[test]
fn non_mapping_third_argument_is_the_unit() {
    // A non-mapping third argument is the subsec unit, not an error.
    let r = at(
        Value::Integer(0),
        Some(Value::Integer(5)),
        Some(Value::Symbol(b"bogus".to_vec())),
        None,
    );
    assert_eq!(r.unwrap_err(), Error::UnexpectedUnit);
}

#[test]
fn seconds_must_convert_to_an_exact_integer() {
    let e = at(Value::Str("ten".to_string()), None, None, None).unwrap_err();
    assert_eq!(e.kind(), ExceptionKind::Type);
    assert_eq!(e.message(), "no implicit conversion of String into Integer");
}

#[test]
fn too_large_construction_is_an_argument_error() {
    // i64::MAX seconds plus one more whole second of microseconds overflows.
    let e = at(
        Value::Integer(i64::MAX),
        Some(Value::Integer(1_000_000)),
        None,
        None,
    )
    .unwrap_err();
    assert_eq!(e, Error::TimeTooLarge);
    assert_eq!(e.message(), "Time too large");
    assert_eq!(e.kind(), ExceptionKind::Argument);
}

#[test]
fn out_of_calendar_range_construction_fails() {
    let e = at(Value::Integer(i64::MAX), None, Some(utc_opts()), None).unwrap_err();
    assert_eq!(e, Error::TimeOutOfRange);
    assert_eq!(e.kind(), ExceptionKind::Argument);
}

#[test]
fn unknown_offset_string_is_rejected() {
    let e = at(Value::Integer(0), Some(zone_opts(b"Not/AZone")), None, None).unwrap_err();
    assert_eq!(e, Error::InvalidUtcOffset);
    assert_eq!(
        e.message(),
        "\"+HH:MM\" or \"-HH:MM\" expected for utc_offset"
    );
}

#[test]
fn numeric_and_military_offsets_shift_the_clock() {
    let t = at(Value::Integer(0), Some(zone_opts(b"+09:30")), None, None).unwrap();
    assert_eq!(int_of(hour(&t)), 9);
    assert_eq!(int_of(minute(&t)), 30);
    assert_eq!(seconds_of(&t), 0);

    let t = at(Value::Integer(0), Some(zone_opts(b"-05:00")), None, None).unwrap();
    assert_eq!(int_of(hour(&t)), 19);
    assert_eq!(int_of(day(&t)), 31);
    assert_eq!(int_of(year(&t)), 1969);

    // Military "M" is +12 hours, "N" is -1 hour.
    let t = at(Value::Integer(0), Some(zone_opts(b"M")), None, None).unwrap();
    assert_eq!(int_of(hour(&t)), 12);
    let t = at(Value::Integer(0), Some(zone_opts(b"N")), None, None).unwrap();
    assert_eq!(int_of(hour(&t)), 23);
}

#[test]
fn utc_offset_strings_and_explicit_units() {
    for name in [&b"Z"[..], &b"UTC"[..]] {
        let t = at(Value::Integer(0), Some(zone_opts(name)), None, None).unwrap();
        assert!(bool_of(is_utc(&t)));
        assert_eq!(int_of(hour(&t)), 0);
    }
    // Out-of-range numeric forms denote no offset.
    let e = at(Value::Integer(0), Some(zone_opts(b"+24:00")), None, None).unwrap_err();
    assert_eq!(e, Error::InvalidUtcOffset);
    let e = at(Value::Integer(0), Some(zone_opts(b"-00:60")), None, None).unwrap_err();
    assert_eq!(e, Error::InvalidUtcOffset);
    // The explicit microsecond unit agrees with the default.
    let t = at(
        Value::Integer(0),
        Some(Value::Integer(9)),
        Some(Value::Symbol(b"usec".to_vec())),
        None,
    )
    .unwrap();
    assert_eq!(nanos_of(&t), 9000);
    // A unit that is no symbol at all is rejected the same way.
    let e = at(
        Value::Integer(0),
        Some(Value::Integer(9)),
        Some(Value::Integer(3)),
        None,
    )
    .unwrap_err();
    assert_eq!(e, Error::UnexpectedUnit);
    assert_eq!(e.message(), "unexpected unit");
}

#[test]
fn subsec_arguments_are_resolved_before_the_seconds() {
    // With both the subsec pair and the seconds malformed, the subsec
    // resolution reports first.
    let e = at(
        Value::Str("ten".to_string()),
        Some(Value::Nil),
        None,
        None,
    )
    .unwrap_err();
    assert_eq!(e.message(), "no implicit conversion of NilClass into Integer");
    // A bad unit outranks the malformed seconds too.
    let e = at(
        Value::Str("ten".to_string()),
        Some(Value::Integer(1)),
        Some(Value::Symbol(b"bogus".to_vec())),
        None,
    )
    .unwrap_err();
    assert_eq!(e, Error::UnexpectedUnit);
}

#[test]
fn subsec_that_is_no_integer_is_a_type_error() {
    let e = at(
        Value::Integer(0),
        Some(Value::Str("half".to_string())),
        None,
        None,
    )
    .unwrap_err();
    assert_eq!(e.kind(), ExceptionKind::Type);
    assert_eq!(e.message(), "no implicit conversion of String into Integer");
}

#[test]
fn named_zone_resolves_through_the_database() {
    let t = at(Value::Integer(0), Some(zone_opts(b"Europe/Berlin")), None, None).unwrap();
    assert_eq!(seconds_of(&t), 0);
    assert_eq!(int_of(hour(&t)), 1);
    assert!(!bool_of(is_utc(&t)));
    assert!(!bool_of(is_dst(&t)));
}

#[test]
fn epoch_fields_at_utc() {
    let t = at_utc(0);
    assert_eq!(int_of(year(&t)), 1970);
    assert_eq!(int_of(month(&t)), 1);
    assert_eq!(int_of(day(&t)), 1);
    assert_eq!(int_of(hour(&t)), 0);
    assert_eq!(int_of(minute(&t)), 0);
    assert_eq!(int_of(second(&t)), 0);
    assert_eq!(int_of(weekday(&t)), 4);
    assert_eq!(int_of(year_day(&t)), 0);
    assert!(bool_of(is_utc(&t)));
    assert!(!bool_of(is_dst(&t)));
}

#[test]
fn leap_day_fields_at_utc() {
    // 2000-02-29T12:34:56Z, a Tuesday.
    let t = at_utc(951_827_696);
    assert_eq!(int_of(year(&t)), 2000);
    assert_eq!(int_of(month(&t)), 2);
    assert_eq!(int_of(day(&t)), 29);
    assert_eq!(int_of(hour(&t)), 12);
    assert_eq!(int_of(minute(&t)), 34);
    assert_eq!(int_of(second(&t)), 56);
    assert_eq!(int_of(weekday(&t)), 2);
    assert_eq!(int_of(year_day(&t)), 59);
}

#[test]
fn subsecond_projections() {
    let t = at(
        Value::Integer(3),
        Some(Value::Integer(1500)),
        None,
        Some(utc_opts()),
    )
    .unwrap();
    assert_eq!(int_of(microsecond(&t)), 1500);
    assert_eq!(int_of(nanosecond(&t)), 1_500_000);
}

#[test]
fn plus_minus_integer_round_trip() {
    let t = at_utc(100);
    let u = plus(&t, &Value::Integer(42)).unwrap();
    assert_eq!(seconds_of(&u), 142);
    let back = minus(&u, &Value::Integer(42)).unwrap();
    assert_eq!(seconds_of(&back), 100);
    assert_eq!(nanos_of(&back), 0);
}

#[test]
fn plus_minus_fractional_round_trip() {
    let t = at(
        Value::Integer(100),
        Some(Value::Integer(250)),
        None,
        Some(utc_opts()),
    )
    .unwrap();
    let step = Value::Float(Fractional {
        seconds: 1,
        nanos: 900_000_000,
    });
    let u = plus(&t, &step).unwrap();
    assert_eq!(seconds_of(&u), 101);
    assert_eq!(nanos_of(&u), 900_250_000);
    let back = minus(&u, &step).unwrap();
    assert_eq!(seconds_of(&back), 100);
    assert_eq!(nanos_of(&back), 250_000);
}

#[test]
fn fractional_addition_carries_and_borrows() {
    // 0.9 s + 0.9 s carries into the whole seconds.
    let t = at(
        Value::Integer(5),
        Some(Value::Integer(900_000)),
        None,
        Some(utc_opts()),
    )
    .unwrap();
    let step = Value::Float(Fractional {
        seconds: 0,
        nanos: 900_000_000,
    });
    let u = plus(&t, &step).unwrap();
    assert_eq!(seconds_of(&u), 6);
    assert_eq!(nanos_of(&u), 800_000_000);
    // Subtracting it again borrows back out.
    let back = minus(&u, &step).unwrap();
    assert_eq!(seconds_of(&back), 5);
    assert_eq!(nanos_of(&back), 900_000_000);
}

#[test]
fn plus_overflow_is_an_explicit_error() {
    let t = at_utc(1);
    // Leaving the representable range is the dedicated overflow kind.
    let e = plus(&t, &Value::Integer(i64::MAX)).unwrap_err();
    assert_eq!(e, Error::TimeOverflow);
    assert_eq!(e.kind(), ExceptionKind::Overflow);
    assert_eq!(e.message(), "time overflow");
    let e = minus(&t, &Value::Integer(i64::MIN)).unwrap_err();
    assert_eq!(e, Error::TimeOverflow);
    let huge = Value::Float(Fractional {
        seconds: i128::MAX / 2,
        nanos: 0,
    });
    let e = plus(&t, &huge).unwrap_err();
    assert_eq!(e.kind(), ExceptionKind::Overflow);
    // Within the integer range but outside the calendar's range is the
    // out-of-range argument error, not overflow.
    let e = plus(&t, &Value::Integer(7_000_000_000_000_000_000)).unwrap_err();
    assert_eq!(e, Error::TimeOutOfRange);
    assert_eq!(e.kind(), ExceptionKind::Argument);
}

#[test]
fn plus_rejects_a_timestamp_operand() {
    let t = at_utc(1);
    let u = at_utc(2);
    let e = plus(&t, &u).unwrap_err();
    assert_eq!(e, Error::TimePlusTime);
    assert_eq!(e.kind(), ExceptionKind::Type);
    assert_eq!(e.message(), "time + time?");
}

#[test]
fn plus_rejects_an_inexact_operand() {
    let t = at_utc(1);
    let e = plus(&t, &Value::Str("1".to_string())).unwrap_err();
    assert_eq!(e, Error::NotExactNumber);
    assert_eq!(e.message(), "can't convert into an exact number");
}

#[test]
fn minus_of_two_timestamps_is_the_elapsed_time() {
    let a = at(
        Value::Integer(10),
        Some(Value::Integer(500_000)),
        None,
        Some(utc_opts()),
    )
    .unwrap();
    let b = at_utc(4);
    match minus(&a, &b).unwrap() {
        Value::Float(d) => {
            assert_eq!(d.seconds, 6);
            assert_eq!(d.nanos, 500_000_000);
        }
        other => panic!("expected a float, got {other:?}"),
    }
    // The reverse difference is negative: -6.5 seconds.
    match minus(&b, &a).unwrap() {
        Value::Float(d) => {
            assert_eq!(d.seconds, -7);
            assert_eq!(d.nanos, 500_000_000);
        }
        other => panic!("expected a float, got {other:?}"),
    }
}

#[test]
fn succ_is_one_second_later() {
    let t = at_utc(41);
    let u = succ(&t).unwrap();
    assert_eq!(seconds_of(&u), 42);
}

#[test]
fn to_float_is_the_exact_instant() {
    let t = at(
        Value::Integer(-3),
        Some(Value::Integer(250_000)),
        None,
        Some(utc_opts()),
    )
    .unwrap();
    match to_float(&t).unwrap() {
        Value::Float(f) => {
            assert_eq!(f.seconds, -3);
            assert_eq!(f.nanos, 250_000_000);
        }
        other => panic!("expected a float, got {other:?}"),
    }
}

#[test]
fn equality_is_reflexive_symmetric_and_total() {
    let t = at_utc(5);
    let u = at_utc(5);
    let w = at_utc(6);
    assert!(bool_of(eql(&t, &t)));
    assert!(bool_of(eql(&t, &u)));
    assert!(bool_of(eql(&u, &t)));
    assert!(!bool_of(eql(&t, &w)));
    assert!(!bool_of(eql(&w, &t)));
    // A foreign operand compares unequal, never an error.
    assert!(!bool_of(eql(&t, &Value::Integer(5))));
    assert!(!bool_of(eql(&t, &Value::Nil)));
}

#[test]
fn equality_ignores_the_offset() {
    let t = at_utc(5);
    let shifted = at(Value::Integer(5), Some(zone_opts(b"A")), None, None).unwrap();
    assert!(bool_of(eql(&t, &shifted)));
}

#[test]
fn comparison_is_a_total_order_on_instants() {
    let a = at_utc(1);
    let b = at(
        Value::Integer(1),
        Some(Value::Integer(1)),
        None,
        Some(utc_opts()),
    )
    .unwrap();
    let c = at_utc(2);
    assert_eq!(int_of(cmp(&a, &b)), -1);
    assert_eq!(int_of(cmp(&b, &a)), 1);
    assert_eq!(int_of(cmp(&a, &a)), 0);
    assert_eq!(int_of(cmp(&b, &c)), -1);
    assert_eq!(int_of(cmp(&a, &c)), -1);
}

#[test]
fn comparison_with_a_foreign_operand_names_its_class() {
    let t = at_utc(1);
    let e = cmp(&t, &Value::Integer(3)).unwrap_err();
    assert_eq!(e.kind(), ExceptionKind::Type);
    assert_eq!(e.message(), "comparison of Time with Integer failed");
    let e = cmp(&t, &Value::Nil).unwrap_err();
    assert_eq!(e.message(), "comparison of Time with NilClass failed");
}

#[test]
fn receiver_with_a_wrong_tag_is_a_hard_failure() {
    let e = to_int(&Value::Integer(3)).unwrap_err();
    assert_eq!(e, Error::UninitializedTime);
    assert_eq!(e.kind(), ExceptionKind::Type);
    assert_eq!(e.message(), "uninitialized Time");
    assert_eq!(cmp(&Value::Nil, &Value::Nil).unwrap_err(), Error::UninitializedTime);
}

#[test]
fn initialize_copy_is_structural_not_aliasing() {
    let src = at(Value::Integer(7), Some(zone_opts(b"A")), None, None).unwrap();
    let mut dst = Value::Nil;
    initialize_copy(&mut dst, &src).unwrap();
    assert!(bool_of(eql(&dst, &src)));
    assert_eq!(seconds_of(&dst), 7);
    // Mutating the copy's zone must not affect the source.
    mutate_to_utc(&mut dst).unwrap();
    assert!(bool_of(is_utc(&dst)));
    assert!(!bool_of(is_utc(&src)));
    assert_eq!(int_of(hour(&src)), 1);
    assert!(bool_of(eql(&dst, &src)));
}

#[test]
fn copying_from_a_non_timestamp_fails() {
    let mut dst = Value::Nil;
    let e = initialize_copy(&mut dst, &Value::Integer(1)).unwrap_err();
    assert_eq!(e, Error::UninitializedTime);
    assert_eq!(dst, Value::Nil);
}

#[test]
fn utc_conversion_preserves_the_instant() {
    let t = at(
        Value::Integer(3600),
        Some(Value::Integer(123)),
        None,
        Some(zone_opts(b"+05:45")),
    )
    .unwrap();
    assert!(!bool_of(is_utc(&t)));
    let u = as_utc(&t).unwrap();
    assert!(bool_of(is_utc(&u)));
    assert_eq!(seconds_of(&u), 3600);
    assert_eq!(nanos_of(&u), 123_000);
    assert_eq!(int_of(hour(&u)), 1);
    // The receiver of the new-value form is untouched.
    assert!(!bool_of(is_utc(&t)));
    assert_eq!(int_of(hour(&t)), 6);

    let mut m = t;
    mutate_to_utc(&mut m).unwrap();
    assert!(bool_of(is_utc(&m)));
    assert_eq!(seconds_of(&m), 3600);
    assert_eq!(nanos_of(&m), 123_000);
    // Converting an already-UTC value changes nothing.
    let again = as_utc(&m).unwrap();
    assert!(bool_of(eql(&again, &m)));
    assert!(bool_of(is_utc(&again)));
}

#[test]
fn weekday_predicates_are_mutually_exclusive() {
    for k in 0..7 {
        let t = at_utc(86_400 * k);
        let flags = [
            bool_of(is_sunday(&t)),
            bool_of(is_monday(&t)),
            bool_of(is_tuesday(&t)),
            bool_of(is_wednesday(&t)),
            bool_of(is_thursday(&t)),
            bool_of(is_friday(&t)),
            bool_of(is_saturday(&t)),
        ];
        assert_eq!(flags.iter().filter(|f| **f).count(), 1);
        let wd = int_of(weekday(&t)) as usize;
        assert!(flags[wd]);
    }
    // The epoch was a Thursday.
    assert!(bool_of(is_thursday(&at_utc(0))));
}

#[test]
fn stubbed_operations_signal_not_implemented() {
    let t = at_utc(0);
    let results = [
        mkutc(vec![Value::Integer(2000)]),
        mktime(vec![Value::Integer(2000)]),
        to_rational(&t),
        hash(&t),
        initialize(&t, vec![]),
        as_local(&t, None),
        asctime(&t),
        to_array(&t),
        round(&t, Some(Value::Integer(2))),
        timezone(&t),
        utc_offset(&t),
        subsec(&t),
        strftime(&t, &Value::Str("%Y".to_string())),
    ];
    for r in results {
        let e = r.unwrap_err();
        assert_eq!(e, Error::NotImplemented);
        assert_eq!(e.kind(), ExceptionKind::NotImplemented);
        assert_eq!(e.message(), "not implemented");
    }
    let mut m = at_utc(0);
    assert_eq!(
        mutate_to_local(&mut m, None).unwrap_err(),
        Error::NotImplemented
    );
    let mut m2 = at_utc(1);
    let e = mutate_to_local(&mut m2, Some(Value::Integer(0))).unwrap_err();
    assert_eq!(e, Error::NotImplemented);
}

#[test]
fn inspect_placeholder_never_fails() {
    let t = at_utc(0);
    match to_string(&t).unwrap() {
        Value::Str(s) => assert_eq!(s, "Time<Time#inspect is not implemented>"),
        other => panic!("expected a string, got {other:?}"),
    }
    // Even a mistagged receiver gets the placeholder rather than a failure.
    match to_string(&Value::Nil).unwrap() {
        Value::Str(s) => assert_eq!(s, "Time<Time#inspect is not implemented>"),
        other => panic!("expected a string, got {other:?}"),
    }
}

#[test]
fn now_returns_a_plausible_local_time() {
    let t = now().unwrap();
    let secs = seconds_of(&t);
    // Well after 2020-01-01 and well before year 3000.
    assert!(secs > 1_577_836_800);
    assert!(secs < 32_503_680_000);
    assert!(int_of(year(&t)) >= 2020);
    let n = nanos_of(&t);
    assert!((0..1_000_000_000).contains(&n));
}

#[test]
fn timestamps_can_be_built_directly() {
    let t = Timestamp::with_timespec_and_offset(86_400, 5, Offset::Utc).unwrap();
    assert_eq!(t.seconds, 86_400);
    assert_eq!(t.nanos, 5);
    assert_eq!(t.fields.year, 1970);
    assert_eq!(t.fields.month, 1);
    assert_eq!(t.fields.month_day, 2);
    assert_eq!(t.fields.week_day, 5);
    let shifted = Timestamp::with_timespec_and_offset(86_400, 5, Offset::Fixed(-3600)).unwrap();
    assert_eq!(shifted.fields.month_day, 1);
    assert_eq!(shifted.fields.hour, 23);
}
