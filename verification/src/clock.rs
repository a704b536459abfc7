//! The time of day, and the way a message writes it.
//!
//! A message carries the local time on a 12-hour dial: the hour without
//! padding, minute and second with two digits each, then `AM` or `PM`, as in
//! `3:05:09 PM`.

use crate::text::{decimal, decimal_string, digit_char, two_digits};
use chrono::Timelike;
use vstd::prelude::*;

verus! {

/// A time of day on a 24-hour clock, as a mathematical value.
pub struct TimeOfDay {
    pub hour: nat,
    pub minute: nat,
    pub second: nat,
}

/// The suffix that names the half of the day.
pub open spec fn meridiem(pm: bool) -> Seq<char> {
    if pm {
        seq!['P', 'M']
    } else {
        seq!['A', 'M']
    }
}

impl TimeOfDay {
    /// Hour, minute and second are those of a day of 24 hours.
    pub open spec fn valid(self) -> bool {
        self.hour < 24 && self.minute < 60 && self.second < 60
    }

    /// Whether the time lies in the second half of the day.
    pub open spec fn is_pm(self) -> bool {
        self.hour >= 12
    }

    /// The hour on a 12-hour dial: 1 to 12, where midnight and noon read 12.
    pub open spec fn hour12(self) -> nat {
        if self.hour % 12 == 0 {
            12
        } else {
            self.hour % 12
        }
    }

    /// Minute and second, two digits each, with a colon between them.
    pub open spec fn minute_second(self) -> Seq<char> {
        two_digits(self.minute) + seq![':'] + two_digits(self.second)
    }

    /// The time as a message writes it.
    pub open spec fn text(self) -> Seq<char> {
        decimal(self.hour12()) + seq![':'] + self.minute_second() + seq![' '] + meridiem(
            self.is_pm(),
        )
    }
}

/// Whether `c` is a decimal digit.
pub open spec fn is_digit(c: char) -> bool {
    '0' <= c && c <= '9'
}

/// Whether `s` has the shape of a time on a 12-hour dial: an hour of one or
/// two digits, minute and second of two digits each, colons between the
/// three, then a space and `AM` or `PM`.
pub open spec fn has_time_shape(s: Seq<char>) -> bool {
    let n = s.len() - 9;
    &&& n == 1 || n == 2
    &&& forall|i: int| 0 <= i < n ==> is_digit(#[trigger] s[i])
    &&& s[n] == ':'
    &&& is_digit(s[n + 1])
    &&& is_digit(s[n + 2])
    &&& s[n + 3] == ':'
    &&& is_digit(s[n + 4])
    &&& is_digit(s[n + 5])
    &&& s[n + 6] == ' '
    &&& (s[n + 7] == 'A' || s[n + 7] == 'P')
    &&& s[n + 8] == 'M'
}

/// Whether `s` is what a message writes for some time of day.
pub open spec fn is_time_text(s: Seq<char>) -> bool {
    exists|t: TimeOfDay| t.valid() && s == #[trigger] t.text()
}

/// A time of day as the relay holds it. Every value is a valid time.
#[derive(Clone, Copy, Debug, PartialEq, Eq)]
pub struct ClockTime {
    hour: u32,
    minute: u32,
    second: u32,
}

impl View for ClockTime {
    type V = TimeOfDay;

    closed spec fn view(&self) -> TimeOfDay {
        TimeOfDay { hour: self.hour as nat, minute: self.minute as nat, second: self.second as nat }
    }
}

impl ClockTime {
    #[verifier::type_invariant]
    spec fn in_range(&self) -> bool {
        self.hour < 24 && self.minute < 60 && self.second < 60
    }

    /// The time with the given hour, minute and second, if there is one.
    pub fn new(hour: u32, minute: u32, second: u32) -> (r: Option<ClockTime>)
        ensures
            r is Some <==> hour < 24 && minute < 60 && second < 60,
            r matches Some(t) ==> t@ == (TimeOfDay {
                hour: hour as nat,
                minute: minute as nat,
                second: second as nat,
            }),
    {
        if hour < 24 && minute < 60 && second < 60 {
            Some(ClockTime { hour, minute, second })
        } else {
            None
        }
    }

    /// The hour, from 0 to 23.
    pub fn hour(&self) -> (r: u32)
        ensures
            r == self@.hour,
            self@.valid(),
    {
        proof {
            use_type_invariant(self);
        }
        self.hour
    }

    /// The minute, from 0 to 59.
    pub fn minute(&self) -> (r: u32)
        ensures
            r == self@.minute,
            self@.valid(),
    {
        proof {
            use_type_invariant(self);
        }
        self.minute
    }

    /// The second, from 0 to 59.
    pub fn second(&self) -> (r: u32)
        ensures
            r == self@.second,
            self@.valid(),
    {
        proof {
            use_type_invariant(self);
        }
        self.second
    }

    /// The half of the day, `true` from noon on, and the hour on a 12-hour
    /// dial.
    pub fn hour12(&self) -> (r: (bool, u32))
        ensures
            r.0 == self@.is_pm(),
            r.1 == self@.hour12(),
    {
        proof {
            use_type_invariant(self);
        }
        let on_dial: u32 = self.hour % 12;
        (
            self.hour >= 12,
            if on_dial == 0 {
                12
            } else {
                on_dial
            },
        )
    }
}

/// Reads the machine's clock through `chrono::Local::now` and keeps hour,
/// minute and second of the local time, as `chrono::Timelike` gives them for
/// a `DateTime`. Trusted: that these lie in the ranges that chrono documents
/// (0 to 23, 0 to 59, 0 to 59). Nothing is said of which time comes back.
/// chrono stops the program where the machine's clock stands before 1970.
#[verifier::external_body]
fn local_now() -> (r: ClockTime)
    ensures
        r@.valid(),
{
    let now = chrono::Local::now();
    ClockTime { hour: now.hour(), minute: now.minute(), second: now.second() }
}

/// Has `chrono::NaiveTime::format` write minute and second of `t` by the
/// pattern `%M:%S`. Trusted: that chrono writes each with two digits, zero
/// padded, and the colon between them. The `NaiveTime` is made by
/// `chrono::NaiveTime::from_hms_opt`, which accepts every valid time of day.
#[verifier::external_body]
fn minute_second_string(t: &ClockTime) -> (s: String)
    requires
        t@.valid(),
    ensures
        s@ == t@.minute_second(),
{
    match chrono::NaiveTime::from_hms_opt(t.hour, t.minute, t.second) {
        Some(naive) => naive.format("%M:%S").to_string(),
        None => String::new(),
    }
}

/// Writes `now` as a message shows it.
pub fn format_time(now: &ClockTime) -> (s: String)
    ensures
        s@ == now@.text(),
{
    proof {
        use_type_invariant(now);
    }
    let (pm, hour) = now.hour12();
    let mut s = decimal_string(hour);
    s.append(":");
    let minute_second = minute_second_string(now);
    s.append(minute_second.as_str());
    s.append(" ");
    s.append(
        if pm {
            "PM"
        } else {
            "AM"
        },
    );
    proof {
        reveal_strlit(":");
        reveal_strlit(" ");
        reveal_strlit("PM");
        reveal_strlit("AM");
        assert(":"@ =~= seq![':']);
        assert(" "@ =~= seq![' ']);
        assert("PM"@ =~= seq!['P', 'M']);
        assert("AM"@ =~= seq!['A', 'M']);
        assert(s@ =~= now@.text());
    }
    s
}

/// Every valid time of day is written in the shape of a time on a 12-hour
/// dial.
pub proof fn lemma_time_text_shape(t: TimeOfDay)
    requires
        t.valid(),
    ensures
        has_time_shape(t.text()),
{
    let h = t.hour12();
    let s = t.text();
    assert(1 <= h <= 12);
    reveal_with_fuel(decimal, 2);
    if h < 10 {
        assert(decimal(h) =~= seq![digit_char(h)]);
        assert(s.len() == 10);
    } else {
        assert(decimal(h) =~= seq![digit_char(h / 10), digit_char(h % 10)]);
        assert(s.len() == 11);
    }
}

/// Whatever a message writes as its time has the shape of a time on a
/// 12-hour dial.
pub proof fn lemma_time_text_is_shaped(s: Seq<char>)
    requires
        is_time_text(s),
    ensures
        has_time_shape(s),
{
    let t = choose|t: TimeOfDay| t.valid() && s == #[trigger] t.text();
    lemma_time_text_shape(t);
}

/// Writes the local time of the machine's clock as a message shows it.
pub fn format_current_time() -> (s: String)
    ensures
        is_time_text(s@),
{
    let now = local_now();
    format_time(&now)
}

} // verus!
