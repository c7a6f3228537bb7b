//! Date normalization.
//!
//! Source dates arrive as text in one of a few layouts. They are read with
//! chrono and shown as `dd-mm-yyyy`; text that cannot be read as a date
//! becomes the empty string instead of failing the extraction.

use crate::text::{decimal_text, digit_char};
use chrono::{Datelike, TimeZone};
use vstd::prelude::*;

verus! {

/// Layout of a source date when no hint is given: `yyyymmdd`.
pub const DEFAULT_LAYOUT: &'static str = "%Y%m%d";

/// Layout tried second when no hint is given: `yymmdd`.
pub const SHORT_YEAR_LAYOUT: &'static str = "%y%m%d";

/// A day of the proleptic Gregorian calendar, as plain numbers.
#[derive(Clone, Copy, Debug, PartialEq, Eq, Structural)]
pub struct CalendarDate {
    pub year: i32,
    pub month: u32,
    pub day: u32,
}

/// A point in time as seconds and nanoseconds since the Unix epoch.
#[derive(Clone, Copy, Debug, PartialEq, Eq, Structural)]
pub struct Timestamp {
    pub seconds: i64,
    pub nanos: u32,
}

/// Number of nanoseconds in a second.
pub const NANOS_PER_SECOND: u32 = 1_000_000_000;

impl Timestamp {
    /// The point in time as nanoseconds since the Unix epoch.
    pub open spec fn total_nanos(self) -> int {
        self.seconds * 1_000_000_000 + self.nanos
    }
}

/// The point in time that lies `seconds` seconds and `nanos` nanoseconds
/// after the Unix epoch, or before it, as nanoseconds since the epoch.
pub open spec fn offset_nanos(after_epoch: bool, seconds: u64, nanos: u32) -> int {
    if after_epoch {
        seconds * 1_000_000_000 + nanos
    } else {
        -(seconds * 1_000_000_000 + nanos)
    }
}

/// The point in time at a distance from the Unix epoch, with a fraction of
/// a second that counts forward. `None` where `nanos` is not below a second
/// or the seconds do not fit in 64 bits with a sign.
pub fn timestamp_from_epoch_offset(after_epoch: bool, seconds: u64, nanos: u32) -> (out: Option<
    Timestamp,
>)
    ensures
        out is Some <==> nanos < NANOS_PER_SECOND && seconds <= i64::MAX,
        out matches Some(t) ==> t.nanos < NANOS_PER_SECOND && t.total_nanos() == offset_nanos(
            after_epoch,
            seconds,
            nanos,
        ),
{
    if nanos >= NANOS_PER_SECOND || seconds > 0x7fff_ffff_ffff_ffff {
        return None;
    }
    let whole = seconds as i64;
    if after_epoch {
        Some(Timestamp { seconds: whole, nanos })
    } else if nanos == 0 {
        Some(Timestamp { seconds: -whole, nanos: 0 })
    } else {
        Some(Timestamp { seconds: -whole - 1, nanos: NANOS_PER_SECOND - nanos })
    }
}

/// Whether `year` has a 29th of February.
pub open spec fn is_leap_year(year: int) -> bool {
    year % 4 == 0 && (year % 100 != 0 || year % 400 == 0)
}

/// Number of days of the month `month` of `year`.
pub open spec fn days_in_month(year: int, month: int) -> int {
    if month == 2 {
        if is_leap_year(year) {
            29
        } else {
            28
        }
    } else if month == 4 || month == 6 || month == 9 || month == 11 {
        30
    } else {
        31
    }
}

impl CalendarDate {
    /// Whether this is a day that the calendar has, in the years that
    /// chrono's `NaiveDate` can hold.
    pub open spec fn on_calendar(self) -> bool {
        &&& -262143 <= self.year <= 262142
        &&& 1 <= self.month <= 12
        &&& 1 <= self.day <= days_in_month(self.year as int, self.month as int)
    }
}

/// `n` as two decimal digits.
pub open spec fn two_digits(n: int) -> Seq<char>
    recommends
        0 <= n <= 99,
{
    seq![digit_char(n / 10), digit_char(n % 10)]
}

/// `n` in decimal, with zeros in front up to four digits.
pub open spec fn four_digits(n: nat) -> Seq<char> {
    let digits = decimal_text(n);
    if digits.len() >= 4 {
        digits
    } else {
        Seq::new((4 - digits.len()) as nat, |i: int| '0') + digits
    }
}

/// A year as shown: four digits, with a sign in front where the year is
/// negative or has more than four digits.
pub open spec fn year_text(year: int) -> Seq<char> {
    if 0 <= year <= 9999 {
        four_digits(year as nat)
    } else if year < 0 {
        seq!['-'] + four_digits((-year) as nat)
    } else {
        seq!['+'] + four_digits(year as nat)
    }
}

/// A date as shown: day, month and year, with hyphens between.
pub open spec fn date_text(date: CalendarDate) -> Seq<char> {
    two_digits(date.day as int) + seq!['-'] + two_digits(date.month as int) + seq!['-']
        + year_text(date.year as int)
}

/// What chrono's `NaiveDate::parse_from_str` reads from `text` under the
/// layout `layout`: the day, or nothing where it reports an error.
pub uninterp spec fn parsed_date(text: Seq<char>, layout: Seq<char>) -> Option<CalendarDate>;

/// Whether `year` is one that chrono reads out of two digits: 70 to 99
/// stand for 1970 to 1999, and 00 to 69 for 2000 to 2069.
pub open spec fn in_short_year_window(year: int) -> bool {
    1970 <= year <= 2069
}

/// Calls chrono's `NaiveDate::parse_from_str` and hands the day out as
/// plain numbers. Trusted: the result depends on the two texts alone; a day
/// that chrono returns is a day of the calendar; and under the layout with a
/// two-digit year the year lies in the window that chrono gives to two
/// digits.
#[verifier::external_body]
fn parse_date(text: &str, layout: &str) -> (out: Option<CalendarDate>)
    ensures
        out == parsed_date(text@, layout@),
        out matches Some(d) ==> d.on_calendar(),
        out matches Some(d) ==> (layout@ == SHORT_YEAR_LAYOUT@ ==> in_short_year_window(
            d.year as int,
        )),
{
    match chrono::NaiveDate::parse_from_str(text, layout) {
        Ok(d) => Some(CalendarDate { year: d.year(), month: d.month(), day: d.day() }),
        Err(_) => None,
    }
}

/// Calls chrono's `NaiveDate::from_ymd_opt` and formats the day with
/// `%d-%m-%Y`. Trusted: chrono accepts exactly the days of the calendar
/// within its range of years, and writes day and month with two digits and
/// the year with four, signed outside 0 to 9999.
#[verifier::external_body]
fn render_date(date: CalendarDate) -> (out: Option<String>)
    ensures
        out is Some <==> date.on_calendar(),
        out matches Some(s) ==> s@ == date_text(date),
{
    match chrono::NaiveDate::from_ymd_opt(date.year, date.month, date.day) {
        Some(d) => Some(d.format("%d-%m-%Y").to_string()),
        None => None,
    }
}

/// A date and a time of day as shown: the date as `dd-mm-yyyy`, a blank,
/// then hour, minute and second with two digits each and colons between.
pub open spec fn time_text(date: CalendarDate, hour: int, minute: int, second: int) -> Seq<char> {
    date_text(date) + seq![' '] + two_digits(hour) + seq![':'] + two_digits(minute) + seq![':']
        + two_digits(second)
}

/// The least and the greatest number of seconds since the Unix epoch at
/// which chrono has a day of its calendar.
pub open spec fn second_range() -> (int, int) {
    (-8_334_601_228_800, 8_210_266_876_799)
}

/// How a date is shown: as `dd-mm-yyyy` where the calendar has it, else
/// as the empty text.
pub open spec fn shown(date: CalendarDate) -> Seq<char> {
    if date.on_calendar() {
        date_text(date)
    } else {
        Seq::empty()
    }
}

/// The display form chosen from the two readings of a source date.
/// `primary` is the reading under the hinted or the default layout; `short`
/// is the reading under the two-digit-year layout, which counts only without
/// a hint and only for a year after 1900.
pub open spec fn chosen_date(
    primary: Option<CalendarDate>,
    hinted: bool,
    short: Option<CalendarDate>,
) -> Seq<char> {
    match primary {
        Some(d) => shown(d),
        None => if hinted {
            Seq::empty()
        } else {
            short_year_date(short)
        },
    }
}

/// The display form of a reading under the two-digit-year layout.
pub open spec fn short_year_date(short: Option<CalendarDate>) -> Seq<char> {
    match short {
        Some(d) => if d.year > 1900 {
            shown(d)
        } else {
            Seq::empty()
        },
        None => Seq::empty(),
    }
}

/// The layout under which a source date is read first.
pub open spec fn primary_layout(hint: Option<Seq<char>>) -> Seq<char> {
    match hint {
        Some(layout) => layout,
        None => DEFAULT_LAYOUT@,
    }
}

/// The normalized form of the source date `text`.
pub open spec fn normalized_date(text: Seq<char>, hint: Option<Seq<char>>) -> Seq<char> {
    chosen_date(
        parsed_date(text, primary_layout(hint)),
        hint is Some,
        parsed_date(text, SHORT_YEAR_LAYOUT@),
    )
}

/// Shows a date as `dd-mm-yyyy`; the empty string for a day that the
/// calendar does not have.
pub fn show_date(date: CalendarDate) -> (out: String)
    ensures
        out@ == shown(date),
{
    match render_date(date) {
        Some(s) => s,
        None => String::new(),
    }
}

/// Shows the reading of a source date under the two-digit-year layout:
/// the date where the year lies after 1900, else the empty string.
pub fn show_short_year_date(short: Option<CalendarDate>) -> (out: String)
    ensures
        out@ == short_year_date(short),
{
    match short {
        Some(d) => {
            if d.year > 1900 {
                show_date(d)
            } else {
                String::new()
            }
        },
        None => String::new(),
    }
}

/// Reads `text` as a date with a two-digit year and shows it; the empty
/// string where it cannot be read so or the year is not after 1900.
pub fn attempt_ambiguous_date_parse(text: &str) -> (out: String)
    ensures
        out@ == short_year_date(parsed_date(text@, SHORT_YEAR_LAYOUT@)),
        out@.len() == 0 || is_short_year_text(out@),
{
    let short = parse_date(text, SHORT_YEAR_LAYOUT);
    let out = show_short_year_date(short);
    proof {
        if out@.len() > 0 {
            assert(out@ == date_text(short->Some_0));
        }
    }
    out
}

/// Chooses the display form from the two readings of a source date:
/// `primary` under the hinted or the default layout, `short` under the
/// two-digit-year layout. The second reading counts only where the first
/// failed and no hint was given.
pub fn choose_date(primary: Option<CalendarDate>, hinted: bool, short: Option<CalendarDate>) -> (out:
    String)
    ensures
        out@ == chosen_date(primary, hinted, short),
{
    match primary {
        Some(d) => show_date(d),
        None => {
            if hinted {
                String::new()
            } else {
                show_short_year_date(short)
            }
        },
    }
}

/// Normalizes a source date. With a hint the text is read under that layout
/// alone. Without one it is read as `yyyymmdd` and, failing that, as
/// `yymmdd`. Text that cannot be read gives the empty string.
pub fn format_date(text: &str, hint: Option<&str>) -> (out: String)
    ensures
        out@ == normalized_date(
            text@,
            match hint {
                Some(layout) => Some(layout@),
                None => None,
            },
        ),
        hint is None && parsed_date(text@, DEFAULT_LAYOUT@) is None ==> out@.len() == 0
            || is_short_year_text(out@),
{
    match hint {
        Some(layout) => choose_date(parse_date(text, layout), true, None),
        None => {
            let primary = parse_date(text, DEFAULT_LAYOUT);
            match primary {
                Some(_) => choose_date(primary, false, None),
                None => attempt_ambiguous_date_parse(text),
            }
        },
    }
}

/// The text of a modification time that may be missing.
pub fn modified_text(rendered: Option<String>) -> (out: String)
    ensures
        out@ == match rendered {
            Some(s) => s@,
            None => Seq::<char>::empty(),
        },
{
    match rendered {
        Some(s) => s,
        None => String::new(),
    }
}

/// Shows a file's modification time as `dd-mm-yyyy hh:mm:ss` in the local
/// time that lies `offset_seconds` seconds east of UTC. A missing time gives
/// the empty string, and so does one that chrono's calendar cannot represent
/// or an offset of a day or more.
pub fn format_modified_datetime(modified: Option<Timestamp>, offset_seconds: i32) -> (out: String)
    ensures
        out@ == modified_shown(modified, offset_seconds),
        out@.len() == 0 <==> !(modified matches Some(time) && time.shown_at(offset_seconds)),
        out@.len() > 0 ==> is_time_text(out@),
{
    match modified {
        Some(time) => show_time_at(time, offset_seconds),
        None => String::new(),
    }
}

/// Shows a point in time as `dd-mm-yyyy hh:mm:ss` at `offset_seconds`
/// seconds east of UTC. The empty string where chrono's calendar cannot
/// represent the time or the offset is a day or more.
pub fn show_time_at(time: Timestamp, offset_seconds: i32) -> (out: String)
    ensures
        out@ == shown_time_at(time, offset_seconds),
        out@.len() == 0 <==> !time.shown_at(offset_seconds),
        time.shown_at(offset_seconds) ==> is_time_text(out@) && time_text_at(
            time.seconds,
            time.nanos,
            offset_seconds,
        ) == Some(out@),
{
    let rendered = time_text_at_offset(time, offset_seconds);
    proof {
        if rendered is Some {
            lemma_time_text_shape(rendered->Some_0@);
        }
    }
    modified_text(rendered)
}

impl Timestamp {
    /// Whether chrono can represent the point in time: the seconds lie
    /// within its calendar, and the nanoseconds are below a second, or below
    /// two in the last second of a minute, where they stand for a leap second.
    pub open spec fn representable(self) -> bool {
        &&& second_range().0 <= self.seconds <= second_range().1
        &&& (self.nanos < 1_000_000_000 || (self.nanos < 2_000_000_000 && self.seconds % 60
            == 59))
    }
}

/// Whether `text` shows some date and time of day in the fixed form. The
/// second may be 60, for a leap second.
pub open spec fn is_time_text(text: Seq<char>) -> bool {
    exists|date: CalendarDate, hour: int, minute: int, second: int|
        {
            &&& 1 <= date.month <= 12
            &&& 1 <= date.day <= 31
            &&& 0 <= hour <= 23
            &&& 0 <= minute <= 59
            &&& 0 <= second <= 60
            &&& text == #[trigger] time_text(date, hour, minute, second)
        }
}

/// A date and time of day in the fixed form has at least nineteen
/// characters, with hyphens behind day and month.
pub proof fn lemma_time_text_shape(text: Seq<char>)
    requires
        is_time_text(text),
    ensures
        text.len() >= 19,
        text[2] == '-',
        text[5] == '-',
{
    let (date, hour, minute, second) = choose|
        date: CalendarDate,
        hour: int,
        minute: int,
        second: int,
    |
        {
            &&& 1 <= date.month <= 12
            &&& 1 <= date.day <= 31
            &&& 0 <= hour <= 23
            &&& 0 <= minute <= 59
            &&& 0 <= second <= 60
            &&& text == #[trigger] time_text(date, hour, minute, second)
        };
    let year = date.year as int;
    let magnitude: nat = if year < 0 {
        (-year) as nat
    } else {
        year as nat
    };
    crate::text::lemma_decimal_text_digits(magnitude);
    assert(four_digits(magnitude).len() >= 4);
    assert(year_text(year).len() >= 4);
    assert(date_text(date).len() >= 10);
}

/// Whether `offset` seconds are less than a day, to either side.
pub open spec fn within_a_day(offset: int) -> bool {
    -86_400 < offset < 86_400
}

impl Timestamp {
    /// Whether chrono has a text for the point in time at `offset_seconds`
    /// seconds east of UTC: it can represent the time, and the offset is
    /// less than a day.
    pub open spec fn shown_at(self, offset_seconds: i32) -> bool {
        self.representable() && within_a_day(offset_seconds as int)
    }
}

/// The text that chrono writes under `%d-%m-%Y %H:%M:%S` for the point in
/// time `seconds` and `nanos` after the Unix epoch, at `offset_seconds`
/// seconds east of UTC; nothing where it has no such time or offset.
pub uninterp spec fn time_text_at(seconds: i64, nanos: u32, offset_seconds: i32) -> Option<
    Seq<char>,
>;

/// The text of a point in time at an offset: empty where chrono has none.
pub open spec fn shown_time_at(time: Timestamp, offset_seconds: i32) -> Seq<char> {
    match time_text_at(time.seconds, time.nanos, offset_seconds) {
        Some(text) => text,
        None => Seq::empty(),
    }
}

/// The text of a modification time at an offset: empty where the time is
/// missing or chrono has no text for it.
pub open spec fn modified_shown(modified: Option<Timestamp>, offset_seconds: i32) -> Seq<char> {
    match modified {
        Some(time) => shown_time_at(time, offset_seconds),
        None => Seq::empty(),
    }
}

/// Whether `text` shows a day of the calendar with a year that chrono reads
/// out of two digits.
pub open spec fn is_short_year_text(text: Seq<char>) -> bool {
    exists|date: CalendarDate|
        date.on_calendar() && in_short_year_window(date.year as int) && text
            == #[trigger] date_text(date)
}

/// A number of four digits is written with four characters.
pub proof fn lemma_four_digit_number(n: nat)
    requires
        1000 <= n <= 9999,
    ensures
        decimal_text(n).len() == 4,
        four_digits(n) == decimal_text(n),
{
    assert(decimal_text(n / 1000).len() == 1);
    assert(decimal_text(n / 100).len() == 2) by {
        assert((n / 100) / 10 == n / 1000);
    }
    assert(decimal_text(n / 10).len() == 3) by {
        assert((n / 10) / 10 == n / 100);
    }
}

/// A date read with a two-digit year is shown with a year of four digits:
/// ten characters, digits but for the hyphens behind day and month.
pub proof fn lemma_short_year_text_shape(text: Seq<char>)
    requires
        is_short_year_text(text),
    ensures
        text.len() == 10,
        text[2] == '-',
        text[5] == '-',
        forall|i: int| 0 <= i < 10 && i != 2 && i != 5 ==> crate::text::is_digit(#[trigger] text[i]),
{
    let date = choose|date: CalendarDate|
        date.on_calendar() && in_short_year_window(date.year as int) && text
            == #[trigger] date_text(date);
    let year = date.year as nat;
    lemma_four_digit_number(year);
    crate::text::lemma_decimal_text_digits(year);
    let digits = decimal_text(year);
    assert(year_text(date.year as int) == digits);
    assert forall|i: int| 0 <= i < 10 && i != 2 && i != 5 implies crate::text::is_digit(
        #[trigger] text[i],
    ) by {
        if i >= 6 {
            assert(text[i] == digits[i - 6]);
        }
    }
}

/// Calls chrono's `FixedOffset::east_opt` and `timestamp_opt`, and formats
/// the time with `%d-%m-%Y %H:%M:%S`. Trusted: the text depends on the three
/// numbers alone; chrono gives it exactly for an offset of less than a day
/// and a time within its calendar with valid nanoseconds; and the text has
/// the shape of the layout.
#[verifier::external_body]
fn time_text_at_offset(time: Timestamp, offset_seconds: i32) -> (out: Option<String>)
    ensures
        match out {
            Some(s) => time_text_at(time.seconds, time.nanos, offset_seconds) == Some(s@),
            None => time_text_at(time.seconds, time.nanos, offset_seconds) is None,
        },
        out is Some <==> time.shown_at(offset_seconds),
        out matches Some(s) ==> is_time_text(s@),
{
    match chrono::FixedOffset::east_opt(offset_seconds) {
        Some(zone) => match zone.timestamp_opt(time.seconds, time.nanos) {
            chrono::LocalResult::Single(t) => Some(t.format("%d-%m-%Y %H:%M:%S").to_string()),
            chrono::LocalResult::Ambiguous(_, _) => None,
            chrono::LocalResult::None => None,
        },
        None => None,
    }
}

} // verus!
