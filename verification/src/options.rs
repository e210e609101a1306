//! The trailing options mapping of a construction call, and the offset
//! specifications its zone key may carry: "Z" or "UTC", a single military
//! zone letter, a "+HH:MM" / "-HH:MM" numeric offset, or the name of a zone
//! in the bundled database.

use vstd::prelude::*;

use crate::calendar::{find_zone, zone_index_of};
use crate::error::Error;
use crate::timestamp::Offset;

verus! {

pub const LETTER_A: u8 = 65;

pub const LETTER_I: u8 = 73;

pub const LETTER_K: u8 = 75;

pub const LETTER_M: u8 = 77;

pub const LETTER_N: u8 = 78;

pub const LETTER_Y: u8 = 89;

pub const LETTER_Z: u8 = 90;

pub const LETTER_U: u8 = 85;

pub const LETTER_T: u8 = 84;

pub const LETTER_C: u8 = 67;

pub const PLUS_SIGN: u8 = 43;

pub const MINUS_SIGN: u8 = 45;

pub const COLON: u8 = 58;

pub const DIGIT_0: u8 = 48;

pub const DIGIT_9: u8 = 57;

/// A key-value options mapping, as the trampoline reads it: the value of its
/// zone key, if the key is present.
#[derive(Clone, Debug, PartialEq, Eq)]
pub struct Options {
    pub zone: Option<Vec<u8>>,
}

pub open spec fn is_ascii_digit(c: u8) -> bool {
    DIGIT_0 <= c <= DIGIT_9
}

/// "Z" or "UTC".
pub open spec fn is_utc_name(s: Seq<u8>) -> bool {
    ||| (s.len() == 1 && s[0] == LETTER_Z)
    ||| (s.len() == 3 && s[0] == LETTER_U && s[1] == LETTER_T && s[2] == LETTER_C)
}

/// A military zone letter other than "Z" (UTC) and the unused "J".
pub open spec fn is_military(c: u8) -> bool {
    ||| (LETTER_A <= c <= LETTER_I)
    ||| (LETTER_K <= c <= LETTER_M)
    ||| (LETTER_N <= c <= LETTER_Y)
}

/// Hours east of UTC for a military zone letter: "A" to "I" are +1 to +9,
/// "K" to "M" are +10 to +12, "N" to "Y" are -1 to -12.
pub open spec fn military_hours(c: u8) -> int {
    if LETTER_A <= c <= LETTER_I {
        c - ((LETTER_A - 1))
    } else if LETTER_K <= c <= LETTER_M {
        c - ((LETTER_K - 10))
    } else {
        -(c - ((LETTER_N - 1)))
    }
}

/// A signed "+HH:MM" / "-HH:MM" form with in-range hours and minutes.
pub open spec fn is_hh_mm(s: Seq<u8>) -> bool {
    &&& s.len() == 6
    &&& (s[0] == PLUS_SIGN || s[0] == MINUS_SIGN)
    &&& is_ascii_digit(s[1])
    &&& is_ascii_digit(s[2])
    &&& s[3] == COLON
    &&& is_ascii_digit(s[4])
    &&& is_ascii_digit(s[5])
    &&& (s[1] - DIGIT_0) * 10 + (s[2] - DIGIT_0) <= 23
    &&& (s[4] - DIGIT_0) * 10 + (s[5] - DIGIT_0) <= 59
}

/// Seconds east of UTC for an in-range "+HH:MM" / "-HH:MM" form.
pub open spec fn hh_mm_seconds(s: Seq<u8>) -> int {
    let magnitude = ((s[1] - DIGIT_0) * 10 + (s[2] - DIGIT_0)) * 3600 + ((s[4] - DIGIT_0) * 10 + (s[5]
        - DIGIT_0)) * 60;
    if s[0] == MINUS_SIGN {
        -magnitude
    } else {
        magnitude
    }
}

/// The offset an offset specification string denotes, trying the recognized
/// forms in order and falling back to a zone-database lookup; `None` where
/// nothing matches.
pub open spec fn parse_offset_spec(s: Seq<u8>) -> Option<Offset> {
    if is_utc_name(s) {
        Some(Offset::Utc)
    } else if s.len() == 1 && is_military(s[0]) {
        Some(Offset::Fixed((military_hours(s[0]) * 3600) as i32))
    } else if is_hh_mm(s) {
        Some(Offset::Fixed(hh_mm_seconds(s) as i32))
    } else {
        match zone_index_of(s) {
            Some(i) => Some(Offset::Named(i)),
            None => None,
        }
    }
}

/// The offset an options mapping resolves to: the machine's own zone when the
/// zone key is absent, else what the key's value denotes.
pub open spec fn options_offset_spec(o: Options) -> Option<Offset> {
    match o.zone {
        None => Some(Offset::Local),
        Some(b) => parse_offset_spec(b@),
    }
}

/// Parse an offset specification string into an offset. Fails exactly on the
/// strings that denote none.
pub fn parse_offset(bytes: &Vec<u8>) -> (r: Result<Offset, Error>)
    ensures
        r matches Ok(o) ==> parse_offset_spec(bytes@) == Some(o) && o.wf(),
        r is Err <==> parse_offset_spec(bytes@) is None,
        r is Err ==> r == Err::<Offset, Error>(Error::InvalidUtcOffset),
{
    let n = bytes.len();
    if n == 1 && bytes[0] == LETTER_Z {
        return Ok(Offset::Utc);
    }
    if n == 3 && bytes[0] == LETTER_U && bytes[1] == LETTER_T && bytes[2] == LETTER_C {
        return Ok(Offset::Utc);
    }
    if n == 1 {
        let c = bytes[0];
        if LETTER_A <= c && c <= LETTER_I {
            return Ok(Offset::Fixed((c - ((LETTER_A - 1))) as i32 * 3600));
        }
        if LETTER_K <= c && c <= LETTER_M {
            return Ok(Offset::Fixed((c - ((LETTER_K - 10))) as i32 * 3600));
        }
        if LETTER_N <= c && c <= LETTER_Y {
            return Ok(Offset::Fixed(-((c - ((LETTER_N - 1))) as i32) * 3600));
        }
    }
    if n == 6 && (bytes[0] == PLUS_SIGN || bytes[0] == MINUS_SIGN) && DIGIT_0 <= bytes[1] && bytes[1] <= DIGIT_9
        && DIGIT_0 <= bytes[2] && bytes[2] <= DIGIT_9 && bytes[3] == COLON && DIGIT_0 <= bytes[4] && bytes[4]
        <= DIGIT_9 && DIGIT_0 <= bytes[5] && bytes[5] <= DIGIT_9 {
        let hours: i32 = (bytes[1] - DIGIT_0) as i32 * 10 + (bytes[2] - DIGIT_0) as i32;
        let minutes: i32 = (bytes[4] - DIGIT_0) as i32 * 10 + (bytes[5] - DIGIT_0) as i32;
        if hours <= 23 && minutes <= 59 {
            let magnitude = hours * 3600 + minutes * 60;
            let seconds = if bytes[0] == MINUS_SIGN {
                -magnitude
            } else {
                magnitude
            };
            return Ok(Offset::Fixed(seconds));
        }
    }
    match find_zone(bytes) {
        Some(i) => Ok(Offset::Named(i)),
        None => Err(Error::InvalidUtcOffset),
    }
}

/// Resolve an options mapping to the offset it specifies, defaulting to the
/// machine's own zone. Fails exactly when the zone key holds a string that
/// denotes no offset.
pub fn options_offset(o: &Options) -> (r: Result<Offset, Error>)
    ensures
        r matches Ok(off) ==> options_offset_spec(*o) == Some(off) && off.wf(),
        r is Err <==> options_offset_spec(*o) is None,
        r is Err ==> r == Err::<Offset, Error>(Error::InvalidUtcOffset),
{
    match &o.zone {
        None => Ok(Offset::Local),
        Some(bytes) => parse_offset(bytes),
    }
}

} // verus!
