//! Calendar dates and the resolver that reads one from a date header.

use chrono::Datelike;
use chrono::NaiveDate;
use vstd::prelude::*;

use crate::text::chars_of;
use crate::text::decimal_i32;
use crate::text::decimal_u32;
use crate::text::fields_of;
use crate::text::is_separator;
use crate::text::lemma_decimal_i32_of_numeral;
use crate::text::lemma_decimal_u32_of_numeral;
use crate::text::lemma_fields_of_joined;
use crate::text::lemma_fields_of_single;
use crate::text::lemma_numeral;
use crate::text::no_separator;
use crate::text::numeral;
use crate::text::parse_i32;
use crate::text::parse_u32;
use crate::text::signed_numeral;
use crate::text::split_fields;
use crate::text::views_of;

verus! {

/// First year that a date can lie in.
pub const MIN_YEAR: i32 = -262143;

/// Last year that a date can lie in.
pub const MAX_YEAR: i32 = 262142;

/// Whether February has 29 days in `year`.
pub open spec fn is_leap_year(year: int) -> bool {
    year % 4 == 0 && (year % 100 != 0 || year % 400 == 0)
}

/// Length of a month of the proleptic Gregorian calendar.
pub open spec fn days_in_month(year: int, month: int) -> int {
    if month == 2 {
        if is_leap_year(year) {
            29
        } else {
            28
        }
    } else if month == 4 || month == 6 || month == 9 || month == 11 {
        30
    } else {
        31
    }
}

/// Whether year, month and day name a day of the calendar.
pub open spec fn valid_ymd(year: int, month: int, day: int) -> bool {
    &&& MIN_YEAR <= year <= MAX_YEAR
    &&& 1 <= month <= 12
    &&& 1 <= day <= days_in_month(year, month)
}

/// The full English name of month `month`, counted from 1.
pub open spec fn month_name(month: int) -> Seq<char> {
    if month == 1 {
        "January"@
    } else if month == 2 {
        "February"@
    } else if month == 3 {
        "March"@
    } else if month == 4 {
        "April"@
    } else if month == 5 {
        "May"@
    } else if month == 6 {
        "June"@
    } else if month == 7 {
        "July"@
    } else if month == 8 {
        "August"@
    } else if month == 9 {
        "September"@
    } else if month == 10 {
        "October"@
    } else if month == 11 {
        "November"@
    } else {
        "December"@
    }
}

/// The number of the month that `name` spells exactly, or 0.
pub open spec fn month_number(name: Seq<char>) -> int {
    if exists|m: int| 1 <= m <= 12 && #[trigger] month_name(m) == name {
        choose|m: int| 1 <= m <= 12 && #[trigger] month_name(m) == name
    } else {
        0
    }
}

/// A calendar date as plain numbers.
pub struct Ymd {
    pub year: int,
    pub month: int,
    pub day: int,
}

/// The day that a date header names: its first field is the month name, its
/// second the day, its fourth the year. An unknown month and an unreadable
/// day count as 0, a missing or unreadable year as `default_year`.
pub open spec fn resolve_date(text: Seq<char>, default_year: int) -> Option<Ymd> {
    let fields = fields_of(text);
    let month = month_number(fields[0]);
    let day = if fields.len() > 1 && decimal_u32(fields[1]) is Some {
        decimal_u32(fields[1])->0 as int
    } else {
        0
    };
    let year = if fields.len() > 3 && decimal_i32(fields[3]) is Some {
        decimal_i32(fields[3])->0 as int
    } else {
        default_year
    };
    if valid_ymd(year, month, day) {
        Some(Ymd { year, month, day })
    } else {
        None
    }
}

/// A day of the proleptic Gregorian calendar.
#[derive(Clone, Copy, Debug, PartialEq, Eq, Structural)]
pub struct Date {
    year: i32,
    month: u32,
    day: u32,
}

impl View for Date {
    type V = Ymd;

    closed spec fn view(&self) -> Ymd {
        Ymd { year: self.year as int, month: self.month as int, day: self.day as int }
    }
}

impl DeepView for Date {
    type V = Ymd;

    open spec fn deep_view(&self) -> Ymd {
        self@
    }
}

/// Wraps `chrono::NaiveDate::from_ymd_opt`, handing the date back as its
/// year, month and day. Claims what chrono documents: the date exists if
/// and only if the year lies within chrono's range, the month within 1..=12
/// and the day within the month, and it then has the numbers it was made of.
#[verifier::external_body]
fn chrono_ymd(year: i32, month: u32, day: u32) -> (r: Option<(i32, u32, u32)>)
    ensures
        r == if valid_ymd(year as int, month as int, day as int) {
            Some((year, month, day))
        } else {
            None::<(i32, u32, u32)>
        },
{
    match NaiveDate::from_ymd_opt(year, month, day) {
        Some(date) => Some((date.year(), date.month(), date.day())),
        None => None,
    }
}

impl Date {
    #[verifier::type_invariant]
    spec fn on_calendar(self) -> bool {
        valid_ymd(self.year as int, self.month as int, self.day as int)
    }

    /// The date with the given year, month and day, if the calendar has it.
    pub fn from_ymd_opt(year: i32, month: u32, day: u32) -> (r: Option<Date>)
        ensures
            r.deep_view() == if valid_ymd(year as int, month as int, day as int) {
                Some(Ymd { year: year as int, month: month as int, day: day as int })
            } else {
                None::<Ymd>
            },
    {
        match chrono_ymd(year, month, day) {
            Some((y, m, d)) => Some(Date { year: y, month: m, day: d }),
            None => None,
        }
    }

    pub fn year(&self) -> (r: i32)
        ensures
            r == self@.year,
            MIN_YEAR <= r <= MAX_YEAR,
    {
        proof {
            use_type_invariant(self);
        }
        self.year
    }

    pub fn month(&self) -> (r: u32)
        ensures
            r == self@.month,
            1 <= r <= 12,
    {
        proof {
            use_type_invariant(self);
        }
        self.month
    }

    pub fn day(&self) -> (r: u32)
        ensures
            r == self@.day,
            1 <= r <= days_in_month(self@.year, self@.month),
    {
        proof {
            use_type_invariant(self);
        }
        self.day
    }

    /// Dates with the same numbers are the same date.
    pub proof fn lemma_same_numbers(a: Date, b: Date)
        requires
            a@ == b@,
        ensures
            a == b,
    {
    }
}

/// Whether `token` spells `word`, character by character.
fn spells(token: &Vec<char>, word: &str) -> (r: bool)
    ensures
        r == (token@ == word@),
{
    let letters = chars_of(word);
    if token.len() != letters.len() {
        return false;
    }
    let mut i: usize = 0;
    while i < token.len()
        invariant
            i <= token.len(),
            token.len() == letters.len(),
            letters@ == word@,
            token@.take(i as int) == letters@.take(i as int),
        decreases token.len() - i,
    {
        if token[i] != letters[i] {
            return false;
        }
        i += 1;
        assert(token@.take(i as int) == token@.take(i - 1).push(token@[i - 1]));
        assert(letters@.take(i as int) == letters@.take(i - 1).push(letters@[i - 1]));
    }
    assert(token@.take(i as int) == token@);
    assert(letters@.take(i as int) == letters@);
    true
}

/// The second and third letters of a month's name: no two months share
/// both.
spec fn month_letters(month: int) -> (char, char) {
    if month == 1 {
        ('a', 'n')
    } else if month == 2 {
        ('e', 'b')
    } else if month == 3 {
        ('a', 'r')
    } else if month == 4 {
        ('p', 'r')
    } else if month == 5 {
        ('a', 'y')
    } else if month == 6 {
        ('u', 'n')
    } else if month == 7 {
        ('u', 'l')
    } else if month == 8 {
        ('u', 'g')
    } else if month == 9 {
        ('e', 'p')
    } else if month == 10 {
        ('c', 't')
    } else if month == 11 {
        ('o', 'v')
    } else {
        ('e', 'c')
    }
}

proof fn lemma_month_letters(month: int)
    requires
        1 <= month <= 12,
    ensures
        month_name(month).len() >= 3,
        month_name(month)[1] == month_letters(month).0,
        month_name(month)[2] == month_letters(month).1,
{
    if month == 1 {
        reveal_strlit("January");
    } else if month == 2 {
        reveal_strlit("February");
    } else if month == 3 {
        reveal_strlit("March");
    } else if month == 4 {
        reveal_strlit("April");
    } else if month == 5 {
        reveal_strlit("May");
    } else if month == 6 {
        reveal_strlit("June");
    } else if month == 7 {
        reveal_strlit("July");
    } else if month == 8 {
        reveal_strlit("August");
    } else if month == 9 {
        reveal_strlit("September");
    } else if month == 10 {
        reveal_strlit("October");
    } else if month == 11 {
        reveal_strlit("November");
    } else {
        reveal_strlit("December");
    }
}

/// The twelve month names differ pairwise.
pub proof fn lemma_month_names_differ(a: int, b: int)
    requires
        1 <= a <= 12,
        1 <= b <= 12,
        month_name(a) == month_name(b),
    ensures
        a == b,
{
    lemma_month_letters(a);
    lemma_month_letters(b);
}

/// A month's name stands for that month.
pub proof fn lemma_month_number_of_name(month: int)
    requires
        1 <= month <= 12,
    ensures
        month_number(month_name(month)) == month,
{
    let m = month_number(month_name(month));
    lemma_month_names_differ(m, month);
}

/// The name of a month holds no separator.
proof fn lemma_month_name_is_one_field(month: int)
    requires
        1 <= month <= 12,
    ensures
        no_separator(month_name(month)),
{
    let name = month_name(month);
    if month == 1 {
        reveal_strlit("January");
    } else if month == 2 {
        reveal_strlit("February");
    } else if month == 3 {
        reveal_strlit("March");
    } else if month == 4 {
        reveal_strlit("April");
    } else if month == 5 {
        reveal_strlit("May");
    } else if month == 6 {
        reveal_strlit("June");
    } else if month == 7 {
        reveal_strlit("July");
    } else if month == 8 {
        reveal_strlit("August");
    } else if month == 9 {
        reveal_strlit("September");
    } else if month == 10 {
        reveal_strlit("October");
    } else if month == 11 {
        reveal_strlit("November");
    } else {
        reveal_strlit("December");
    }
    assert forall|i: int| 0 <= i < name.len() implies !is_separator(#[trigger] name[i]) by {
        if i == 0 {
        } else if i == 1 {
        } else if i == 2 {
        } else if i == 3 {
        } else if i == 4 {
        } else if i == 5 {
        } else if i == 6 {
        } else if i == 7 {
        } else {
        }
    }
}

/// A date header that names its year: the month's name, the day, a comma
/// and the year, as in `October 11, 2022`.
pub open spec fn header_with_year(month: int, day: nat, year: int) -> Seq<char> {
    month_name(month) + seq![' '] + (numeral(day) + seq![','] + (seq![' '] + signed_numeral(year)))
}

/// A date header that names no year, as in `February 19`.
pub open spec fn header_without_year(month: int, day: nat) -> Seq<char> {
    month_name(month) + seq![' '] + numeral(day)
}

/// A header that names a day of the calendar with its year resolves to
/// exactly that day, whatever the default year.
pub proof fn lemma_explicit_year_is_kept(month: int, day: nat, year: int, default_year: int)
    requires
        valid_ymd(year, month, day as int),
    ensures
        resolve_date(header_with_year(month, day, year), default_year) == Some(
            Ymd { year, month, day: day as int },
        ),
{
    let year_text = signed_numeral(year);
    let after_comma = seq![' '] + year_text;
    let after_month = numeral(day) + seq![','] + after_comma;
    lemma_month_name_is_one_field(month);
    lemma_month_number_of_name(month);
    lemma_numeral(day);
    lemma_decimal_u32_of_numeral(day);
    lemma_decimal_i32_of_numeral(year);
    lemma_fields_of_single(year_text);
    assert(after_comma == Seq::<char>::empty() + seq![' '] + year_text);
    lemma_fields_of_joined(Seq::empty(), ' ', year_text);
    lemma_fields_of_joined(numeral(day), ',', after_comma);
    lemma_fields_of_joined(month_name(month), ' ', after_month);
    let fields = fields_of(header_with_year(month, day, year));
    assert(fields == seq![month_name(month), numeral(day), Seq::<char>::empty(), year_text]);
}

/// A header that names a day without a year resolves to that day of the
/// default year, where that year has it.
pub proof fn lemma_default_year_is_used(month: int, day: nat, default_year: int)
    requires
        valid_ymd(default_year, month, day as int),
    ensures
        resolve_date(header_without_year(month, day), default_year) == Some(
            Ymd { year: default_year, month, day: day as int },
        ),
{
    lemma_month_name_is_one_field(month);
    lemma_month_number_of_name(month);
    lemma_numeral(day);
    lemma_decimal_u32_of_numeral(day);
    lemma_fields_of_single(numeral(day));
    lemma_fields_of_joined(month_name(month), ' ', numeral(day));
    let fields = fields_of(header_without_year(month, day));
    assert(fields == seq![month_name(month), numeral(day)]);
}

/// Whatever a header with fewer than four fields resolves to lies in the
/// default year.
pub proof fn lemma_short_header_takes_default_year(text: Seq<char>, default_year: int)
    requires
        fields_of(text).len() < 4,
        resolve_date(text, default_year) is Some,
    ensures
        resolve_date(text, default_year)->0.year == default_year,
{
}

/// A header whose fourth field reads as a year resolves to a day of that
/// year or to none, whatever the default year.
pub proof fn lemma_year_field_decides(text: Seq<char>, first: int, second: int)
    requires
        fields_of(text).len() >= 4,
        decimal_i32(fields_of(text)[3]) is Some,
    ensures
        resolve_date(text, first) == resolve_date(text, second),
        resolve_date(text, first) matches Some(date) ==> date.year == decimal_i32(
            fields_of(text)[3],
        )->0,
{
}

/// The number of the month that `token` names, or 0.
fn month_of(token: &Vec<char>) -> (r: u32)
    ensures
        r == month_number(token@),
{
    let mut found: u32 = 0;
    if spells(token, "January") {
        found = 1;
    } else if spells(token, "February") {
        found = 2;
    } else if spells(token, "March") {
        found = 3;
    } else if spells(token, "April") {
        found = 4;
    } else if spells(token, "May") {
        found = 5;
    } else if spells(token, "June") {
        found = 6;
    } else if spells(token, "July") {
        found = 7;
    } else if spells(token, "August") {
        found = 8;
    } else if spells(token, "September") {
        found = 9;
    } else if spells(token, "October") {
        found = 10;
    } else if spells(token, "November") {
        found = 11;
    } else if spells(token, "December") {
        found = 12;
    }
    proof {
        if found != 0 {
            assert(month_name(found as int) == token@);
            lemma_month_number_of_name(found as int);
        } else {
            assert forall|m: int| 1 <= m <= 12 implies #[trigger] month_name(m) != token@ by {}
        }
    }
    found
}

/// Reads the day that a date header names.
pub fn parse_date(date_str: &str, default_year: i32) -> (r: Option<Date>)
    ensures
        r.deep_view() == resolve_date(date_str@, default_year as int),
{
    let fields = split_fields(date_str);
    proof {
        assert(fields_of(date_str@).len() >= 1) by {
            reveal_with_fuel(fields_of, 1);
        }
        assert(forall|i: int|
            0 <= i < fields.len() ==> #[trigger] views_of(fields@)[i] == fields@[i]@);
    }
    let month = month_of(&fields[0]);
    let mut day: u32 = 0;
    if fields.len() > 1 {
        if let Some(d) = parse_u32(&fields[1]) {
            day = d;
        }
    }
    let mut year: i32 = default_year;
    if fields.len() > 3 {
        if let Some(y) = parse_i32(&fields[3]) {
            year = y;
        }
    }
    Date::from_ymd_opt(year, month, day)
}

} // verus!
