//! Timestamps: a reading of the wall clock and its textual form.

use sys_time::DateTime;
use vstd::prelude::*;

use crate::decimal::{decimal, decimal_text, is_digit, lemma_decimal_is_digits};

verus! {

/// One reading of the wall clock, in UTC, as calendar fields.
#[derive(Clone, Copy, Debug, PartialEq, Eq)]
pub struct ClockReading {
    pub year: u64,
    /// 1 for January to 12 for December.
    pub month: u8,
    pub day: u8,
    pub hour: u8,
    pub minute: u8,
    pub second: u8,
}

impl ClockReading {
    /// What holds of every reading that the system clock hands out: the
    /// month is one of the twelve, and the time of day is within the day.
    pub open spec fn in_range(self) -> bool {
        &&& 1 <= self.month <= 12
        &&& self.hour < 24
        &&& self.minute < 60
        &&& self.second < 60
    }

    /// The timestamp of the reading: `year-month-day hour:minute:second`,
    /// every field in decimal notation without padding.
    pub open spec fn text(self) -> Seq<char> {
        decimal_text(self.year as nat) + seq!['-'] + decimal_text(self.month as nat) + seq!['-']
            + decimal_text(self.day as nat) + seq![' '] + decimal_text(self.hour as nat) + seq![':']
            + decimal_text(self.minute as nat) + seq![':'] + decimal_text(self.second as nat)
    }

    /// Formats the reading as a timestamp.
    pub fn format(&self) -> (s: String)
        ensures
            s@ == self.text(),
    {
        proof {
            reveal_strlit("-");
            reveal_strlit(" ");
            reveal_strlit(":");
        }
        let mut s = decimal(self.year);
        s.append("-");
        s.append(decimal(self.month as u64).as_str());
        s.append("-");
        s.append(decimal(self.day as u64).as_str());
        s.append(" ");
        s.append(decimal(self.hour as u64).as_str());
        s.append(":");
        s.append(decimal(self.minute as u64).as_str());
        s.append(":");
        s.append(decimal(self.second as u64).as_str());
        assert(s@ =~= self.text());
        s
    }
}

/// Whether `s` is the timestamp of some reading that the clock can hand out.
pub open spec fn is_timestamp(s: Seq<char>) -> bool {
    exists|r: ClockReading| r.in_range() && s == #[trigger] r.text()
}

/// Whether `c` can stand in a timestamp: a digit or one of the separators.
pub open spec fn is_stamp_char(c: char) -> bool {
    is_digit(c) || c == '-' || c == ' ' || c == ':'
}

/// A timestamp is made of digits, hyphens, a space and colons; it holds no
/// line feed.
pub proof fn lemma_timestamp_chars(r: ClockReading)
    ensures
        forall|i: int| 0 <= i < r.text().len() ==> is_stamp_char(#[trigger] r.text()[i]),
        !r.text().contains('\n'),
{
    lemma_decimal_is_digits(r.year as nat);
    lemma_decimal_is_digits(r.month as nat);
    lemma_decimal_is_digits(r.day as nat);
    lemma_decimal_is_digits(r.hour as nat);
    lemma_decimal_is_digits(r.minute as nat);
    lemma_decimal_is_digits(r.second as nat);
}

/// Reads the system clock through `sys_time::DateTime::now_utc` and copies
/// the calendar fields of the result.
///
/// Trusted, not proved: the reading is in range. `sys_time` computes the
/// second and the minute as remainders by 60 and the hour as a remainder by
/// 24, and its `month()` hands out one of twelve variants numbered from 1.
/// Nothing is claimed of the year or the day, nor of how two readings relate.
#[verifier::external_body]
pub(crate) fn now_utc() -> (now: ClockReading)
    ensures
        now.in_range(),
{
    let t = DateTime::now_utc();
    ClockReading {
        year: t.year(),
        month: t.month() as u8,
        day: t.day(),
        hour: t.hour(),
        minute: t.minute(),
        second: t.second(),
    }
}

} // verus!
