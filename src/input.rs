//! The requested height, as the user types it, and its control setpoint.

use vstd::prelude::*;
use vstd::string::*;

use crate::locator::SessionError;

verus! {

/// Lowest height that may be requested, in millimetres.
pub const DESK_MIN_MM: u32 = 820;

/// Highest height that may be requested, in millimetres.
pub const DESK_MAX_MM: u32 = 1250;

/// Calibration offset subtracted from a request to give the control setpoint.
pub const CALIBRATION_MM: u32 = 20;

/// What `str::trim` leaves of a text.
pub uninterp spec fn trim_of(s: Seq<char>) -> Seq<char>;

/// Relies on `str::trim`: strips leading and trailing whitespace.
#[verifier::external_body]
fn trim_text(s: &str) -> (r: &str)
    ensures
        r@ == trim_of(s@),
{
    s.trim()
}

pub open spec fn is_digit(c: char) -> bool {
    48 <= (c as u32) <= 57
}

/// The value of a string of decimal digits.
pub open spec fn digits_value(s: Seq<char>) -> nat
    decreases s.len(),
{
    if s.len() == 0 {
        0
    } else {
        10 * digits_value(s.drop_last()) + ((s.last() as u32) - 48) as nat
    }
}

/// A text without its leading `+`, if it has one.
pub open spec fn unsigned_part(t: Seq<char>) -> Seq<char> {
    if t.len() > 0 && t[0] == '+' { t.drop_first() } else { t }
}

pub open spec fn all_digits(d: Seq<char>) -> bool {
    forall|i: int| 0 <= i < d.len() ==> is_digit(#[trigger] d[i])
}

/// The number that a text writes: decimal digits, after an optional `+`.
pub open spec fn spec_number(t: Seq<char>) -> Option<nat> {
    let d = unsigned_part(t);
    if d.len() > 0 && all_digits(d) {
        Some(digits_value(d))
    } else {
        None
    }
}

/// The setpoint for a requested height written as `t`: the request less the
/// calibration offset, where the request is a number in the accepted range.
pub open spec fn spec_setpoint(t: Seq<char>) -> Result<u32, SessionError> {
    match spec_number(t) {
        Some(v) => if DESK_MIN_MM <= v <= DESK_MAX_MM {
            Ok((v - CALIBRATION_MM) as u32)
        } else {
            Err(SessionError::InvalidInput)
        },
        None => Err(SessionError::InvalidInput),
    }
}

/// Turns a requested height, already trimmed, into the control setpoint.
pub fn setpoint_from_text(t: &str) -> (r: Result<u32, SessionError>)
    ensures
        r == spec_setpoint(t@),
{
    let n = t.unicode_len();
    let start: usize = if n > 0 && t.get_char(0) == '+' { 1 } else { 0 };
    let ghost d = unsigned_part(t@);
    if start >= n {
        return Err(SessionError::InvalidInput);
    }
    // `acc` is the value so far, held at DESK_MAX_MM + 1 once it exceeds the range.
    let mut acc: u32 = 0;
    let mut i: usize = start;
    while i < n
        invariant
            n == t@.len(),
            start <= i <= n,
            d == unsigned_part(t@),
            d =~= t@.subrange(start as int, n as int),
            forall|j: int| start <= j < i ==> is_digit(#[trigger] t@[j]),
            acc as int == if digits_value(t@.subrange(start as int, i as int)) > DESK_MAX_MM {
                DESK_MAX_MM + 1
            } else {
                digits_value(t@.subrange(start as int, i as int)) as int
            },
        decreases n - i,
    {
        let c = t.get_char(i);
        if !((c as u32) >= 48 && (c as u32) <= 57) {
            proof {
                assert(d[i - start] == c);
                assert(!is_digit(d[i - start]));
            }
            return Err(SessionError::InvalidInput);
        }
        proof {
            assert(t@.subrange(start as int, i + 1).drop_last() =~= t@.subrange(
                start as int,
                i as int,
            ));
        }
        let digit: u32 = (c as u32) - 48;
        if acc > DESK_MAX_MM {
            acc = DESK_MAX_MM + 1;
        } else {
            let v = acc * 10 + digit;
            acc = if v > DESK_MAX_MM { DESK_MAX_MM + 1 } else { v };
        }
        i = i + 1;
    }
    proof {
        assert(t@.subrange(start as int, n as int) =~= d);
        assert forall|j: int| 0 <= j < d.len() implies is_digit(#[trigger] d[j]) by {
            assert(d[j] == t@[j + start]);
        }
    }
    if acc < DESK_MIN_MM || acc > DESK_MAX_MM {
        Err(SessionError::InvalidInput)
    } else {
        Ok(acc - CALIBRATION_MM)
    }
}

/// Turns the line that the user typed into the control setpoint, or
/// `InvalidInput` where it is no height in the accepted range.
pub fn parse_target(input: &str) -> (r: Result<u32, SessionError>)
    ensures
        r == spec_setpoint(trim_of(input@)),
{
    setpoint_from_text(trim_text(input))
}

} // verus!
