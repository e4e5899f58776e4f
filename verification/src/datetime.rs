//! Calendar timestamps in UTC, rendered in the RFC 3339 shape the
//! remote API accepts for its `from`/`to` filters and date fields,
//! e.g. `2016-09-24T00:00:05Z`.

use vstd::prelude::*;
use crate::text::{digit_char, exec_digit_char, push_char};
use crate::json::jstr;

verus! {

/// A timestamp in UTC with one-second resolution.
#[derive(Clone, Copy, Debug, PartialEq, Eq, Structural)]
pub struct UtcDateTime {
    /// Year, 0 through 9999.
    pub year: u16,
    /// Month of the year, 1 through 12.
    pub month: u8,
    /// Day of the month, 1 through the month's length.
    pub day: u8,
    /// Hour of the day, 0 through 23.
    pub hour: u8,
    /// Minute of the hour, 0 through 59.
    pub minute: u8,
    /// Second of the minute, 0 through 59.
    pub second: u8,
}

/// Whether `y` is a leap year of the Gregorian calendar.
pub open spec fn is_leap_year(y: int) -> bool {
    y % 4 == 0 && (y % 100 != 0 || y % 400 == 0)
}

/// The number of days of month `m` in year `y`.
pub open spec fn days_in_month(y: int, m: int) -> int {
    if m == 2 {
        if is_leap_year(y) { 29 } else { 28 }
    } else if m == 4 || m == 6 || m == 9 || m == 11 {
        30
    } else {
        31
    }
}

impl UtcDateTime {
    /// Every field lies in its calendar range.
    pub open spec fn wf(self) -> bool {
        &&& self.year <= 9999
        &&& 1 <= self.month <= 12
        &&& 1 <= self.day <= days_in_month(self.year as int, self.month as int)
        &&& self.hour < 24
        &&& self.minute < 60
        &&& self.second < 60
    }

    /// Renders the timestamp as RFC 3339 text.
    pub fn to_rfc3339(&self) -> (r: String)
        requires
            self.wf(),
        ensures
            r@ == rfc3339(*self),
    {
        let mut r = String::new();
        push_pad4(&mut r, self.year);
        push_char(&mut r, '-');
        push_pad2(&mut r, self.month);
        push_char(&mut r, '-');
        push_pad2(&mut r, self.day);
        push_char(&mut r, 'T');
        push_pad2(&mut r, self.hour);
        push_char(&mut r, ':');
        push_pad2(&mut r, self.minute);
        push_char(&mut r, ':');
        push_pad2(&mut r, self.second);
        push_char(&mut r, 'Z');
        proof {
            reveal(rfc3339);
            assert(r@ =~= rfc3339(*self));
        }
        r
    }
}

/// Two decimal digits, zero-padded.
pub open spec fn pad2(n: int) -> Seq<char> {
    seq![digit_char(n / 10), digit_char(n % 10)]
}

/// Four decimal digits, zero-padded.
pub open spec fn pad4(n: int) -> Seq<char> {
    seq![
        digit_char(n / 1000),
        digit_char((n / 100) % 10),
        digit_char((n / 10) % 10),
        digit_char(n % 10),
    ]
}

/// The RFC 3339 rendering of a timestamp, with a trailing `Z`.
#[verifier::opaque]
pub open spec fn rfc3339(d: UtcDateTime) -> Seq<char> {
    pad4(d.year as int) + seq!['-'] + pad2(d.month as int) + seq!['-'] + pad2(d.day as int)
        + seq!['T'] + pad2(d.hour as int) + seq![':'] + pad2(d.minute as int) + seq![':'] + pad2(
        d.second as int,
    ) + seq!['Z']
}

/// The value text of an optional timestamp inside a JSON body: an RFC
/// 3339 string literal, or `null`.
pub open spec fn jopt_date(o: Option<UtcDateTime>) -> Seq<char> {
    match o {
        Option::Some(d) => jstr(rfc3339(d)),
        Option::None => "null"@,
    }
}

/// The query pair contributed by an optional timestamp parameter:
/// nothing when absent, one form-encoded RFC 3339 value when present.
pub open spec fn opt_date_pair(k: Seq<char>, o: Option<UtcDateTime>) -> Seq<
    (Seq<char>, Seq<char>),
> {
    match o {
        Option::Some(d) => seq![(k, crate::urlenc::form_str(rfc3339(d)))],
        Option::None => Seq::empty(),
    }
}

fn push_pad2(out: &mut String, n: u8)
    requires
        n < 100,
    ensures
        final(out)@ == old(out)@ + pad2(n as int),
{
    push_char(out, exec_digit_char((n / 10) as u128));
    push_char(out, exec_digit_char((n % 10) as u128));
    proof {
        assert(final(out)@ =~= old(out)@ + pad2(n as int));
    }
}

fn push_pad4(out: &mut String, n: u16)
    requires
        n < 10000,
    ensures
        final(out)@ == old(out)@ + pad4(n as int),
{
    push_char(out, exec_digit_char((n / 1000) as u128));
    push_char(out, exec_digit_char(((n / 100) % 10) as u128));
    push_char(out, exec_digit_char(((n / 10) % 10) as u128));
    push_char(out, exec_digit_char((n % 10) as u128));
    proof {
        assert(final(out)@ =~= old(out)@ + pad4(n as int));
    }
}

} // verus!
