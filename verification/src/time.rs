//! The wall-clock reading that the clock shows, and the texts it is shown in.

use vstd::prelude::*;
use crate::format::{decimal_value, padded_int, push_padded, pow10, lemma_padded_reads_back};

verus! {

/// A calendar date and time of day, field by field, as the toolkit's
/// date-time value reports them (month counted from 1).
#[derive(Clone, Copy, Debug, PartialEq, Eq)]
pub struct ClockTime {
    pub year: i32,
    pub month: u16,
    pub day: i16,
    pub hour: i16,
    pub minute: i16,
    pub second: i16,
}

impl ClockTime {
    /// A time of day that a clock can show: hours 0..24, minutes and
    /// seconds 0..60.
    pub open spec fn is_time_of_day(self) -> bool {
        &&& 0 <= self.hour < 24
        &&& 0 <= self.minute < 60
        &&& 0 <= self.second < 60
    }

    /// A calendar date with a four-digit year.
    pub open spec fn is_plain_date(self) -> bool {
        &&& 0 <= self.year < 10000
        &&& 1 <= self.month <= 12
        &&& 1 <= self.day <= 31
    }
}

/// `YYYY-MM-DD  HH:MM:SS`: the line under the analog dial.
pub open spec fn footer_spec(t: ClockTime) -> Seq<char> {
    padded_int(t.year as int, 4) + seq!['-'] + padded_int(t.month as int, 2) + seq!['-']
        + padded_int(t.day as int, 2) + seq![' ', ' '] + padded_int(t.hour as int, 2) + seq![':']
        + padded_int(t.minute as int, 2) + seq![':'] + padded_int(t.second as int, 2)
}

/// `HH:MM:SS`, or `HH:MM` without seconds: the large line of the digital face.
pub open spec fn time_text_spec(t: ClockTime, show_seconds: bool) -> Seq<char> {
    let hm = padded_int(t.hour as int, 2) + seq![':'] + padded_int(t.minute as int, 2);
    if show_seconds {
        hm + seq![':'] + padded_int(t.second as int, 2)
    } else {
        hm
    }
}

/// `YYYY<sep>MM<sep>DD`: the date line of the digital face.
pub open spec fn date_text_spec(t: ClockTime, sep: Seq<char>) -> Seq<char> {
    padded_int(t.year as int, 4) + sep + padded_int(t.month as int, 2) + sep
        + padded_int(t.day as int, 2)
}

fn push_str(out: &mut String, s: &str)
    ensures
        final(out)@ == old(out)@ + s@,
{
    out.append(s);
}

/// The date line of a digital face, its fields joined by `sep`.
pub fn date_text(t: &ClockTime, sep: &str) -> (s: String)
    ensures
        s@ == date_text_spec(*t, sep@),
{
    let mut s = String::new();
    push_padded(&mut s, t.year as i64, 4);
    push_str(&mut s, sep);
    push_padded(&mut s, t.month as i64, 2);
    push_str(&mut s, sep);
    push_padded(&mut s, t.day as i64, 2);
    proof {
        assert(s@ =~= date_text_spec(*t, sep@));
    }
    s
}

/// The time line of a digital face: hours and minutes, and the seconds
/// when they are shown.
pub fn time_text(t: &ClockTime, show_seconds: bool) -> (s: String)
    ensures
        s@ == time_text_spec(*t, show_seconds),
{
    proof {
        reveal_strlit(":");
    }
    let mut s = String::new();
    push_padded(&mut s, t.hour as i64, 2);
    push_str(&mut s, ":");
    push_padded(&mut s, t.minute as i64, 2);
    if show_seconds {
        push_str(&mut s, ":");
        push_padded(&mut s, t.second as i64, 2);
    }
    proof {
        assert(s@ =~= time_text_spec(*t, show_seconds));
    }
    s
}

/// The date and time line shown under the analog dial.
pub fn footer_text(t: &ClockTime) -> (s: String)
    ensures
        s@ == footer_spec(*t),
{
    proof {
        reveal_strlit(":");
        reveal_strlit("-");
        reveal_strlit("  ");
    }
    let mut s = String::new();
    push_padded(&mut s, t.year as i64, 4);
    push_str(&mut s, "-");
    push_padded(&mut s, t.month as i64, 2);
    push_str(&mut s, "-");
    push_padded(&mut s, t.day as i64, 2);
    push_str(&mut s, "  ");
    push_padded(&mut s, t.hour as i64, 2);
    push_str(&mut s, ":");
    push_padded(&mut s, t.minute as i64, 2);
    push_str(&mut s, ":");
    push_padded(&mut s, t.second as i64, 2);
    proof {
        assert(s@ =~= footer_spec(*t));
    }
    s
}


/// A real date and time of day is always written in the same number of
/// characters: the line under the dial in 20, the time line in 8 (5 without
/// seconds), the date line in 8 plus its two separators.
pub proof fn lemma_texts_fixed_width(t: ClockTime, sep: Seq<char>)
    requires
        t.is_time_of_day(),
        t.is_plain_date(),
    ensures
        footer_spec(t).len() == 20,
        time_text_spec(t, true).len() == 8,
        time_text_spec(t, false).len() == 5,
        date_text_spec(t, sep).len() == 8 + 2 * sep.len(),
{
    assert(pow10(2) == 100 && pow10(4) == 10000) by {
        reveal_with_fuel(pow10, 5);
    }
    lemma_padded_reads_back(t.year as int, 4);
    lemma_padded_reads_back(t.month as int, 2);
    lemma_padded_reads_back(t.day as int, 2);
    lemma_padded_reads_back(t.hour as int, 2);
    lemma_padded_reads_back(t.minute as int, 2);
    lemma_padded_reads_back(t.second as int, 2);
}

/// For a real date and time each field of each text reads back as the field
/// it shows, in its place, between the right separators: the time line is
/// hour, minute and second; the line under the dial is year, month, day, two
/// spaces, hour, minute and second; the date line is year, month and day.
pub proof fn lemma_texts_show_the_fields(t: ClockTime, sep: char)
    requires
        t.is_time_of_day(),
        t.is_plain_date(),
    ensures
        decimal_value(time_text_spec(t, true).subrange(0, 2)) == t.hour,
        time_text_spec(t, true)[2] == ':',
        decimal_value(time_text_spec(t, true).subrange(3, 5)) == t.minute,
        time_text_spec(t, true)[5] == ':',
        decimal_value(time_text_spec(t, true).subrange(6, 8)) == t.second,
        time_text_spec(t, false) == time_text_spec(t, true).subrange(0, 5),
        decimal_value(footer_spec(t).subrange(0, 4)) == t.year,
        footer_spec(t)[4] == '-',
        decimal_value(footer_spec(t).subrange(5, 7)) == t.month,
        footer_spec(t)[7] == '-',
        decimal_value(footer_spec(t).subrange(8, 10)) == t.day,
        footer_spec(t)[10] == ' ' && footer_spec(t)[11] == ' ',
        footer_spec(t).subrange(12, 20) == time_text_spec(t, true),
        decimal_value(date_text_spec(t, seq![sep]).subrange(0, 4)) == t.year,
        date_text_spec(t, seq![sep])[4] == sep,
        decimal_value(date_text_spec(t, seq![sep]).subrange(5, 7)) == t.month,
        date_text_spec(t, seq![sep])[7] == sep,
        decimal_value(date_text_spec(t, seq![sep]).subrange(8, 10)) == t.day,
        footer_spec(t).subrange(0, 10) == date_text_spec(t, seq!['-']),
{
    assert(pow10(2) == 100 && pow10(4) == 10000) by {
        reveal_with_fuel(pow10, 5);
    }
    lemma_padded_reads_back(t.year as int, 4);
    lemma_padded_reads_back(t.month as int, 2);
    lemma_padded_reads_back(t.day as int, 2);
    lemma_padded_reads_back(t.hour as int, 2);
    lemma_padded_reads_back(t.minute as int, 2);
    lemma_padded_reads_back(t.second as int, 2);
    let y = padded_int(t.year as int, 4);
    let mo = padded_int(t.month as int, 2);
    let d = padded_int(t.day as int, 2);
    let h = padded_int(t.hour as int, 2);
    let mi = padded_int(t.minute as int, 2);
    let se = padded_int(t.second as int, 2);
    let tt = time_text_spec(t, true);
    assert(tt.subrange(0, 2) =~= h);
    assert(tt.subrange(3, 5) =~= mi);
    assert(tt.subrange(6, 8) =~= se);
    assert(time_text_spec(t, false) =~= tt.subrange(0, 5));
    let f = footer_spec(t);
    assert(f.subrange(0, 4) =~= y);
    assert(f.subrange(5, 7) =~= mo);
    assert(f.subrange(8, 10) =~= d);
    assert(f.subrange(12, 20) =~= tt);
    let dt = date_text_spec(t, seq![sep]);
    assert(dt.subrange(0, 4) =~= y);
    assert(dt.subrange(5, 7) =~= mo);
    assert(dt.subrange(8, 10) =~= d);
    assert(f.subrange(0, 10) =~= date_text_spec(t, seq!['-']));
}

} // verus!
