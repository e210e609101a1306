//! Normalizing the loosely typed construction arguments: repositioning a
//! trailing options mapping that may stand in an earlier optional slot, and
//! resolving the `(subsec, subsec unit)` pair into a whole-second and
//! nanosecond pair with the nanoseconds below one second.

use vstd::prelude::*;

use crate::error::Error;
use crate::value::Value;

verus! {

pub const LOWER_M: u8 = 109;

pub const LOWER_U: u8 = 117;

pub const LOWER_N: u8 = 110;

pub const LOWER_S: u8 = 115;

pub const LOWER_E: u8 = 101;

pub const LOWER_C: u8 = 99;

/// Nanoseconds per unit for a unit symbol's name: "msec", "usec" or "nsec";
/// other names denote no unit.
pub open spec fn unit_factor_of(s: Seq<u8>) -> Option<int> {
    if s.len() == 4 && s[1] == LOWER_S && s[2] == LOWER_E && s[3] == LOWER_C {
        if s[0] == LOWER_M {
            Some(1_000_000int)
        } else if s[0] == LOWER_U {
            Some(1000int)
        } else if s[0] == LOWER_N {
            Some(1int)
        } else {
            None
        }
    } else {
        None
    }
}

/// Nanoseconds per unit for the optional unit argument: microseconds when it
/// is absent; a value that is no recognized unit symbol has none.
pub open spec fn unit_factor(unit: Option<Value>) -> Option<int> {
    match unit {
        None => Some(1000int),
        Some(Value::Symbol(s)) => unit_factor_of(s@),
        Some(_) => None,
    }
}

/// The count carried by the optional subsec argument: zero when it is
/// absent; a value that is no exact integer has none.
pub open spec fn subsec_value(sub: Option<Value>) -> Option<int> {
    match sub {
        None => Some(0int),
        Some(Value::Integer(v)) => Some(v as int),
        Some(_) => None,
    }
}

/// The `(whole seconds, nanoseconds)` pair the subsec arguments resolve to,
/// with the nanosecond part in `[0, 1e9)` and negative counts borrowing from
/// the whole seconds.
pub open spec fn subsec_split(sub: Option<Value>, unit: Option<Value>) -> Option<(int, int)> {
    match (subsec_value(sub), unit_factor(unit)) {
        (Some(v), Some(f)) => Some(((v * f) / 1_000_000_000, (v * f) % 1_000_000_000)),
        _ => None,
    }
}

/// The construction slots after options repositioning, per the fixed-arity
/// reverse scan: a present fourth argument must be a mapping (else the call
/// is malformed, `None` here); else a mapping third argument becomes the
/// options and clears the unit slot; else a mapping second argument becomes
/// the options and clears the subsec slot.
pub open spec fn normalized_slots(
    first: Option<Value>,
    second: Option<Value>,
    third: Option<Value>,
) -> Option<(Option<Value>, Option<Value>, Option<Value>)> {
    match third {
        Some(t) => if t is Hash {
            Some((first, second, Some(t)))
        } else {
            None
        },
        None => match second {
            Some(s) => if s is Hash {
                Some((first, None, Some(s)))
            } else {
                Some((first, Some(s), None))
            },
            None => match first {
                Some(f) => if f is Hash {
                    Some((None, None, Some(f)))
                } else {
                    Some((Some(f), None, None))
                },
                None => Some((None, None, None)),
            },
        },
    }
}

/// Every recognized `(subsec, unit)` combination resolves to the normalized
/// form: a nanosecond part in `[0, 1e9)`, with the split pair scaling back
/// to exactly the given count of the given unit.
pub proof fn lemma_subsec_split_normalized(sub: Option<Value>, unit: Option<Value>)
    ensures
        subsec_split(sub, unit) matches Some(p) ==> {
            &&& 0 <= p.1 < 1_000_000_000
            &&& subsec_value(sub) matches Some(v)
            &&& unit_factor(unit) matches Some(f)
            &&& p.0 * 1_000_000_000 + p.1 == v * f
        },
{
    if subsec_split(sub, unit) is Some {
        let v = subsec_value(sub).unwrap();
        let f = unit_factor(unit).unwrap();
        vstd::arithmetic::div_mod::lemma_fundamental_div_mod(v * f, 1_000_000_000);
        vstd::arithmetic::div_mod::lemma_mod_bound(v * f, 1_000_000_000);
    }
}

/// Reposition a trailing options mapping into the options slot. Fails exactly
/// when a fourth argument is present and is not a mapping.
pub fn reposition_options(first: Option<Value>, second: Option<Value>, third: Option<Value>) -> (r:
    Result<(Option<Value>, Option<Value>, Option<Value>), Error>)
    ensures
        r matches Ok(s) ==> normalized_slots(first, second, third) == Some(s),
        r is Err <==> normalized_slots(first, second, third) is None,
        r is Err ==> r == Err::<(Option<Value>, Option<Value>, Option<Value>), Error>(
            Error::InvalidOffsetOptions,
        ),
{
    match third {
        Some(t) => if t.is_hash() {
            Ok((first, second, Some(t)))
        } else {
            Err(Error::InvalidOffsetOptions)
        },
        None => match second {
            Some(s) => if s.is_hash() {
                Ok((first, None, Some(s)))
            } else {
                Ok((first, Some(s), None))
            },
            None => match first {
                Some(f) => if f.is_hash() {
                    Ok((None, None, Some(f)))
                } else {
                    Ok((Some(f), None, None))
                },
                None => Ok((None, None, None)),
            },
        },
    }
}

/// Resolve the subsec arguments into a whole-second and nanosecond pair. The
/// unit is checked first: an unrecognized one is an argument error. A subsec
/// value that is no exact integer is a type error naming its class. A
/// recognized pair always resolves: the scaled count's whole seconds fit.
pub fn resolve_subsec(sub: Option<Value>, unit: Option<Value>) -> (r: Result<(i64, u32), Error>)
    ensures
        unit_factor(unit) is None ==> r == Err::<(i64, u32), Error>(Error::UnexpectedUnit),
        unit_factor(unit) is Some && subsec_value(sub) is None ==> (r matches Err(e) && sub
            matches Some(s) && e matches Error::NoImplicitInt(n) && n@ == s.class_name_spec()),
        subsec_split(sub, unit) matches Some(p) ==> (r matches Ok(q) && p == (
            q.0 as int,
            q.1 as int,
        ) && q.1 < 1_000_000_000),
{
    let factor: i64 = match &unit {
        None => 1000,
        Some(Value::Symbol(s)) => {
            if s.len() == 4 && s[1] == LOWER_S && s[2] == LOWER_E && s[3] == LOWER_C {
                if s[0] == LOWER_M {
                    1_000_000
                } else if s[0] == LOWER_U {
                    1000
                } else if s[0] == LOWER_N {
                    1
                } else {
                    return Err(Error::UnexpectedUnit);
                }
            } else {
                return Err(Error::UnexpectedUnit);
            }
        },
        Some(_) => {
            return Err(Error::UnexpectedUnit);
        },
    };
    let v: i64 = match &sub {
        None => 0,
        Some(Value::Integer(v)) => *v,
        Some(other) => {
            return Err(Error::NoImplicitInt(other.class_name()));
        },
    };
    let ghost total: int = v * factor;
    let mu: u128 = if v >= 0 {
        v as u128
    } else {
        (-(v as i128)) as u128
    };
    let ghost m: int = if v >= 0 {
        v as int
    } else {
        -(v as int)
    };
    assert(mu == m);
    assert(m * (factor as int) <= 9223372036854775808 * 1000000) by (nonlinear_arith)
        requires
            0 <= m <= 9223372036854775808,
            0 <= factor as int <= 1000000,
    ;
    let magnitude: u128 = mu * (factor as u128);
    let q: u128 = magnitude / 1_000_000_000;
    let rem: u128 = magnitude % 1_000_000_000;
    proof {
        vstd::arithmetic::div_mod::lemma_fundamental_div_mod(magnitude as int, 1_000_000_000);
        assert(magnitude as int == q * 1_000_000_000 + rem);
        vstd::arithmetic::div_mod::lemma_div_is_ordered(
            magnitude as int,
            9223372036854775808000000,
            1_000_000_000,
        );
        assert(q <= 9223372036854776808);
        assert(0 <= rem < 1_000_000_000);
    }
    if v >= 0 {
        proof {
            assert(total == magnitude as int);
            vstd::arithmetic::div_mod::lemma_fundamental_div_mod_converse(
                total,
                1_000_000_000,
                q as int,
                rem as int,
            );
        }
        Ok((q as i64, rem as u32))
    } else {
        proof {
            assert(total == -(magnitude as int)) by (nonlinear_arith)
                requires
                    total == (v as int) * (factor as int),
                    magnitude as int == m * (factor as int),
                    m == -(v as int),
            ;
        }
        if rem == 0 {
            proof {
                vstd::arithmetic::div_mod::lemma_fundamental_div_mod_converse(
                    total,
                    1_000_000_000,
                    -(q as int),
                    0,
                );
            }
            Ok((-(q as i64), 0))
        } else {
            proof {
                vstd::arithmetic::div_mod::lemma_fundamental_div_mod_converse(
                    total,
                    1_000_000_000,
                    -(q as int) - 1,
                    1_000_000_000 - rem as int,
                );
            }
            Ok((-(q as i64) - 1, (1_000_000_000 - rem) as u32))
        }
    }
}

} // verus!
