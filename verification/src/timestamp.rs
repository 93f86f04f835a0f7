//! Calendar timestamps as plain values, and their two textual renderings.

use vstd::prelude::*;
use crate::text::{
    append_zero_padded, digit, lemma_zero_padded_digits, zero_padded, COLON, DOT, MINUS, PLUS, SPACE, UPPER_T, UPPER_Z,
};

verus! {

/// A point in time as the caller's clock reported it: a civil date and time
/// of day with microseconds, and the offset of that local time from UTC.
#[derive(Clone, Copy, Debug, PartialEq, Eq, Structural)]
pub struct Timestamp {
    pub year: u16,
    pub month: u8,
    pub day: u8,
    pub hour: u8,
    pub minute: u8,
    pub second: u8,
    pub microsecond: u32,
    /// Minutes east of UTC; zero means UTC itself.
    pub offset_minutes: i16,
}

/// True for leap years of the Gregorian calendar.
pub open spec fn is_leap_year(year: nat) -> bool {
    year % 4 == 0 && (year % 100 != 0 || year % 400 == 0)
}

/// The number of days of a month, 0 for a month outside 1 to 12.
pub open spec fn days_in_month(year: nat, month: nat) -> nat {
    if month == 2 {
        if is_leap_year(year) { 29 } else { 28 }
    } else if month == 4 || month == 6 || month == 9 || month == 11 {
        30
    } else if 1 <= month <= 12 {
        31
    } else {
        0
    }
}

/// The three letters of a month's English abbreviation.
pub open spec fn month_letters(month: u8) -> (u8, u8, u8) {
    match month {
        1 => (74, 97, 110),  // Jan
        2 => (70, 101, 98),  // Feb
        3 => (77, 97, 114),  // Mar
        4 => (65, 112, 114),  // Apr
        5 => (77, 97, 121),  // May
        6 => (74, 117, 110),  // Jun
        7 => (74, 117, 108),  // Jul
        8 => (65, 117, 103),  // Aug
        9 => (83, 101, 112),  // Sep
        10 => (79, 99, 116),  // Oct
        11 => (78, 111, 118),  // Nov
        _ => (68, 101, 99),  // Dec
    }
}

/// A month's abbreviation as bytes.
pub open spec fn month_abbreviation(month: u8) -> Seq<u8> {
    seq![month_letters(month).0, month_letters(month).1, month_letters(month).2]
}

/// A day of the month in two columns, padded with a space rather than a zero.
pub open spec fn space_padded_day(day: nat) -> Seq<u8> {
    if day < 10 {
        seq![SPACE, digit(day)]
    } else {
        zero_padded(day, 2)
    }
}

fn month_letters_of(month: u8) -> (letters: (u8, u8, u8))
    ensures
        letters == month_letters(month),
{
    match month {
        1 => (74, 97, 110),  // Jan
        2 => (70, 101, 98),  // Feb
        3 => (77, 97, 114),  // Mar
        4 => (65, 112, 114),  // Apr
        5 => (77, 97, 121),  // May
        6 => (74, 117, 110),  // Jun
        7 => (74, 117, 108),  // Jul
        8 => (65, 117, 103),  // Aug
        9 => (83, 101, 112),  // Sep
        10 => (79, 99, 116),  // Oct
        11 => (78, 111, 118),  // Nov
        _ => (68, 101, 99),  // Dec
    }
}

fn month_length(year: u16, month: u8) -> (days: u8)
    ensures
        days == days_in_month(year as nat, month as nat),
{
    if month == 2 {
        if year % 4 == 0 && (year % 100 != 0 || year % 400 == 0) { 29 } else { 28 }
    } else if month == 4 || month == 6 || month == 9 || month == 11 {
        30
    } else if 1 <= month && month <= 12 {
        31
    } else {
        0
    }
}

impl Timestamp {
    /// A timestamp is well formed when it names a real calendar day of a
    /// four-digit year, a time of day, and an offset of less than a day.
    /// Seconds end at 59: a leap second cannot be written.
    pub open spec fn wf(self) -> bool {
        &&& self.year <= 9999
        &&& 1 <= self.month <= 12
        &&& 1 <= self.day <= days_in_month(self.year as nat, self.month as nat)
        &&& self.hour <= 23
        &&& self.minute <= 59
        &&& self.second <= 59
        &&& self.microsecond <= 999_999
        &&& -1440 < self.offset_minutes < 1440
    }

    /// `hh:mm:ss`.
    pub open spec fn clock_text(self) -> Seq<u8> {
        zero_padded(self.hour as nat, 2) + seq![COLON] + zero_padded(self.minute as nat, 2)
            + seq![COLON] + zero_padded(self.second as nat, 2)
    }

    /// The fixed-width local time `Mmm dd hh:mm:ss`, the day padded with a
    /// space.
    pub open spec fn rfc3164_text(self) -> Seq<u8> {
        month_abbreviation(self.month) + seq![SPACE] + space_padded_day(self.day as nat)
            + seq![SPACE] + self.clock_text()
    }

    /// The offset from UTC: `Z` for zero, else a sign and `hh:mm`.
    pub open spec fn offset_text(self) -> Seq<u8> {
        if self.offset_minutes == 0 {
            seq![UPPER_Z]
        } else if self.offset_minutes > 0 {
            seq![PLUS] + zero_padded((self.offset_minutes / 60) as nat, 2) + seq![COLON]
                + zero_padded((self.offset_minutes % 60) as nat, 2)
        } else {
            seq![MINUS] + zero_padded(((-self.offset_minutes) / 60) as nat, 2) + seq![COLON]
                + zero_padded(((-self.offset_minutes) % 60) as nat, 2)
        }
    }

    /// `YYYY-MM-DDThh:mm:ss.ffffff` followed by the offset.
    pub open spec fn rfc3339_text(self) -> Seq<u8> {
        zero_padded(self.year as nat, 4) + seq![MINUS] + zero_padded(self.month as nat, 2)
            + seq![MINUS] + zero_padded(self.day as nat, 2) + seq![UPPER_T] + self.clock_text()
            + seq![DOT] + zero_padded(self.microsecond as nat, 6) + self.offset_text()
    }

    /// Builds a timestamp from its parts, or nothing when they do not form a
    /// well-formed one.
    pub fn new(
        year: u16,
        month: u8,
        day: u8,
        hour: u8,
        minute: u8,
        second: u8,
        microsecond: u32,
        offset_minutes: i16,
    ) -> (r: Option<Timestamp>)
        ensures
            r == (if (Timestamp {
                year,
                month,
                day,
                hour,
                minute,
                second,
                microsecond,
                offset_minutes,
            }).wf() {
                Some(
                    Timestamp {
                        year,
                        month,
                        day,
                        hour,
                        minute,
                        second,
                        microsecond,
                        offset_minutes,
                    },
                )
            } else {
                None
            }),
    {
        let timestamp = Timestamp {
            year,
            month,
            day,
            hour,
            minute,
            second,
            microsecond,
            offset_minutes,
        };
        if timestamp.is_well_formed() {
            Some(timestamp)
        } else {
            None
        }
    }

    /// Tells whether the timestamp is well formed.
    pub fn is_well_formed(&self) -> (ok: bool)
        ensures
            ok == self.wf(),
    {
        self.year <= 9999 && 1 <= self.month && self.month <= 12 && 1 <= self.day && self.day
            <= month_length(self.year, self.month) && self.hour <= 23 && self.minute <= 59
            && self.second <= 59 && self.microsecond <= 999_999 && -1440 < self.offset_minutes
            && self.offset_minutes < 1440
    }

    fn append_clock(&self, out: &mut Vec<u8>)
        ensures
            final(out)@ == old(out)@ + self.clock_text(),
    {
        append_zero_padded(out, self.hour as u64, 2);
        out.push(COLON);
        append_zero_padded(out, self.minute as u64, 2);
        out.push(COLON);
        append_zero_padded(out, self.second as u64, 2);
        assert(out@ =~= old(out)@ + self.clock_text());
    }

    /// Appends the `Mmm dd hh:mm:ss` rendering to `out`.
    pub fn append_rfc3164(&self, out: &mut Vec<u8>)
        requires
            self.wf(),
        ensures
            final(out)@ == old(out)@ + self.rfc3164_text(),
    {
        let letters = month_letters_of(self.month);
        out.push(letters.0);
        out.push(letters.1);
        out.push(letters.2);
        out.push(SPACE);
        if self.day < 10 {
            out.push(SPACE);
            out.push(48u8 + self.day);
        } else {
            append_zero_padded(out, self.day as u64, 2);
        }
        out.push(SPACE);
        let ghost before = out@;
        self.append_clock(out);
        assert(before =~= old(out)@ + month_abbreviation(self.month) + seq![SPACE]
            + space_padded_day(self.day as nat) + seq![SPACE]);
        assert(out@ =~= old(out)@ + self.rfc3164_text());
    }

    fn append_offset(&self, out: &mut Vec<u8>)
        requires
            self.wf(),
        ensures
            final(out)@ == old(out)@ + self.offset_text(),
    {
        if self.offset_minutes == 0 {
            out.push(UPPER_Z);
        } else {
            let magnitude: u64 = if self.offset_minutes > 0 {
                out.push(PLUS);
                self.offset_minutes as u64
            } else {
                out.push(MINUS);
                (-self.offset_minutes) as u64
            };
            append_zero_padded(out, magnitude / 60, 2);
            out.push(COLON);
            append_zero_padded(out, magnitude % 60, 2);
        }
        assert(out@ =~= old(out)@ + self.offset_text());
    }

    /// Appends the RFC 3339 rendering, with six fractional digits, to `out`.
    pub fn append_rfc3339(&self, out: &mut Vec<u8>)
        requires
            self.wf(),
        ensures
            final(out)@ == old(out)@ + self.rfc3339_text(),
    {
        append_zero_padded(out, self.year as u64, 4);
        out.push(MINUS);
        append_zero_padded(out, self.month as u64, 2);
        out.push(MINUS);
        append_zero_padded(out, self.day as u64, 2);
        out.push(UPPER_T);
        let ghost date = out@;
        self.append_clock(out);
        out.push(DOT);
        append_zero_padded(out, self.microsecond as u64, 6);
        let ghost before = out@;
        self.append_offset(out);
        assert(before =~= old(out)@ + zero_padded(self.year as nat, 4) + seq![MINUS] + zero_padded(
            self.month as nat,
            2,
        ) + seq![MINUS] + zero_padded(self.day as nat, 2) + seq![UPPER_T] + self.clock_text() + seq![
            DOT,
        ] + zero_padded(self.microsecond as nat, 6));
        assert(out@ =~= old(out)@ + self.rfc3339_text());
    }
}

/// Both renderings have a fixed width: the local time always takes 15 bytes,
/// and the RFC 3339 form 27 bytes in UTC and 32 bytes with an offset.
pub proof fn lemma_timestamp_widths(timestamp: Timestamp)
    ensures
        timestamp.rfc3164_text().len() == 15,
        timestamp.rfc3339_text().len() == if timestamp.offset_minutes == 0 {
            27int
        } else {
            32int
        },
{
    lemma_zero_padded_digits(timestamp.year as nat, 4);
    lemma_zero_padded_digits(timestamp.month as nat, 2);
    lemma_zero_padded_digits(timestamp.day as nat, 2);
    lemma_zero_padded_digits(timestamp.hour as nat, 2);
    lemma_zero_padded_digits(timestamp.minute as nat, 2);
    lemma_zero_padded_digits(timestamp.second as nat, 2);
    lemma_zero_padded_digits(timestamp.microsecond as nat, 6);
    lemma_zero_padded_digits((timestamp.offset_minutes / 60) as nat, 2);
    lemma_zero_padded_digits((timestamp.offset_minutes % 60) as nat, 2);
    lemma_zero_padded_digits(((-timestamp.offset_minutes) / 60) as nat, 2);
    lemma_zero_padded_digits(((-timestamp.offset_minutes) % 60) as nat, 2);
}

} // verus!
