//! Calendar dates of the proleptic Gregorian calendar.

use vstd::arithmetic::div_mod::{
    lemma_fundamental_div_mod,
    lemma_fundamental_div_mod_converse_div,
    lemma_mod_multiples_vanish,
};
use vstd::prelude::*;

use crate::text::{decimal, decimal_text};

verus! {

/// A calendar day: year, month (1 to 12) and day of the month.
#[derive(Clone, Copy, Debug, PartialEq, Eq, Structural)]
pub struct CivilDate {
    pub year: i32,
    pub month: u32,
    pub day: u32,
}

pub open spec fn is_leap_year(y: int) -> bool {
    (y % 4 == 0 && y % 100 != 0) || y % 400 == 0
}

pub open spec fn days_in_month(y: int, m: int) -> int {
    if m == 2 {
        if is_leap_year(y) {
            29
        } else {
            28
        }
    } else if m == 4 || m == 6 || m == 9 || m == 11 {
        30
    } else {
        31
    }
}

/// Sakamoto's offset of a month, for the weekday formula below.
pub open spec fn month_offset(m: int) -> int {
    if m == 1 {
        0
    } else if m == 2 {
        3
    } else if m == 3 {
        2
    } else if m == 4 {
        5
    } else if m == 5 {
        0
    } else if m == 6 {
        3
    } else if m == 7 {
        5
    } else if m == 8 {
        1
    } else if m == 9 {
        4
    } else if m == 10 {
        6
    } else if m == 11 {
        2
    } else {
        4
    }
}

/// The day of the week of a date, 0 for Sunday up to 6 for Saturday.
pub open spec fn weekday_of(y: int, m: int, d: int) -> int {
    let yy = if m < 3 {
        y - 1
    } else {
        y
    };
    (yy + yy / 4 - yy / 100 + yy / 400 + month_offset(m) + d) % 7
}

/// The three-letter English name of a weekday (0 for Sunday).
pub open spec fn weekday_abbrev(w: int) -> Seq<char> {
    if w == 0 {
        seq!['S', 'u', 'n']
    } else if w == 1 {
        seq!['M', 'o', 'n']
    } else if w == 2 {
        seq!['T', 'u', 'e']
    } else if w == 3 {
        seq!['W', 'e', 'd']
    } else if w == 4 {
        seq!['T', 'h', 'u']
    } else if w == 5 {
        seq!['F', 'r', 'i']
    } else {
        seq!['S', 'a', 't']
    }
}

/// The day of the month padded with a space to two characters.
pub open spec fn padded_day(d: nat) -> Seq<char> {
    if d < 10 {
        seq![' '] + decimal(d)
    } else {
        decimal(d)
    }
}

impl CivilDate {
    /// Month and day name a day that exists in the year.
    pub open spec fn wf(self) -> bool {
        1 <= self.month <= 12 && 1 <= self.day <= days_in_month(self.year as int, self.month as int)
    }

    /// The following calendar day.
    pub open spec fn spec_next(self) -> CivilDate {
        if (self.day as int) < days_in_month(self.year as int, self.month as int) {
            CivilDate { year: self.year, month: self.month, day: (self.day + 1) as u32 }
        } else if self.month < 12 {
            CivilDate { year: self.year, month: (self.month + 1) as u32, day: 1 }
        } else {
            CivilDate { year: (self.year + 1) as i32, month: 1, day: 1 }
        }
    }

    /// The date `k` days after this one.
    pub open spec fn days_after(self, k: nat) -> CivilDate
        decreases k,
    {
        if k == 0 {
            self
        } else {
            self.days_after((k - 1) as nat).spec_next()
        }
    }

    pub open spec fn spec_weekday(self) -> int {
        weekday_of(self.year as int, self.month as int, self.day as int)
    }

    /// The date as `weekday day-of-month`, such as `Fri  1`.
    pub open spec fn spec_label(self) -> Seq<char> {
        weekday_abbrev(self.spec_weekday()) + seq![' '] + padded_day(self.day as nat)
    }

    pub fn new(year: i32, month: u32, day: u32) -> (r: Option<CivilDate>)
        ensures
            match r {
                Some(d) => d == (CivilDate { year, month, day }) && d.wf(),
                None => !(CivilDate { year, month, day }).wf(),
            },
    {
        let d = CivilDate { year, month, day };
        if 1 <= month && month <= 12 && 1 <= day && day <= month_length(year, month) {
            Some(d)
        } else {
            None
        }
    }

    /// The following calendar day.
    pub fn next_day(&self) -> (r: CivilDate)
        requires
            self.wf(),
            self.year < i32::MAX,
        ensures
            r == self.spec_next(),
            r.wf(),
            r.year <= self.year + 1,
    {
        if self.day < month_length(self.year, self.month) {
            CivilDate { year: self.year, month: self.month, day: self.day + 1 }
        } else if self.month < 12 {
            CivilDate { year: self.year, month: self.month + 1, day: 1 }
        } else {
            CivilDate { year: self.year + 1, month: 1, day: 1 }
        }
    }

    /// The day of the week, 0 for Sunday up to 6 for Saturday.
    pub fn weekday(&self) -> (r: u32)
        requires
            self.wf(),
        ensures
            r == self.spec_weekday(),
            r < 7,
    {
        let yy: i64 = if self.month < 3 {
            self.year as i64 - 1
        } else {
            self.year as i64
        };
        // Weekdays repeat every 400 years (146097 days, a multiple of 7):
        // shift the year by a multiple of 400 to make it positive.
        let k: i64 = 5368710;
        let s: u64 = (yy + 400 * k) as u64;
        let t: u64 = month_table(self.month);
        let w: u64 = (s + s / 4 - s / 100 + s / 400 + t + self.day as u64) % 7;
        proof {
            lemma_shift_400(yy as int, k as int);
            let base = yy + yy / 4 - yy / 100 + yy / 400 + month_offset(self.month as int)
                + self.day;
            let shifted = s + s / 4 - s / 100 + s / 400 + t + self.day;
            assert(shifted == 7 * (71 * k) + base);
            lemma_mod_multiples_vanish(71 * k, base, 7);
        }
        w as u32
    }

    /// The date as `weekday day-of-month`, such as `Fri  1`.
    pub fn label(&self) -> (r: String)
        requires
            self.wf(),
        ensures
            r@ == self.spec_label(),
    {
        let mut r = String::from_str(weekday_name(self.weekday()));
        r.append(" ");
        if self.day < 10 {
            r.append(" ");
        }
        let d = decimal_text(self.day as u64);
        r.append(d.as_str());
        proof {
            reveal_strlit(" ");
        }
        assert(r@ =~= self.spec_label());
        r
    }
}

proof fn lemma_shift_400(y: int, k: int)
    requires
        k >= 0,
    ensures
        (y + 400 * k) / 4 == y / 4 + 100 * k,
        (y + 400 * k) / 100 == y / 100 + 4 * k,
        (y + 400 * k) / 400 == y / 400 + k,
{
    lemma_fundamental_div_mod(y, 4);
    lemma_fundamental_div_mod(y, 100);
    lemma_fundamental_div_mod(y, 400);
    lemma_fundamental_div_mod_converse_div(y + 400 * k, 4, y / 4 + 100 * k, y % 4);
    lemma_fundamental_div_mod_converse_div(y + 400 * k, 100, y / 100 + 4 * k, y % 100);
    lemma_fundamental_div_mod_converse_div(y + 400 * k, 400, y / 400 + k, y % 400);
}

fn month_length(y: i32, m: u32) -> (r: u32)
    requires
        1 <= m <= 12,
    ensures
        r == days_in_month(y as int, m as int),
{
    if m == 2 {
        if (y % 4 == 0 && y % 100 != 0) || y % 400 == 0 {
            29
        } else {
            28
        }
    } else if m == 4 || m == 6 || m == 9 || m == 11 {
        30
    } else {
        31
    }
}

fn month_table(m: u32) -> (r: u64)
    ensures
        r == month_offset(m as int),
{
    if m == 1 {
        0
    } else if m == 2 {
        3
    } else if m == 3 {
        2
    } else if m == 4 {
        5
    } else if m == 5 {
        0
    } else if m == 6 {
        3
    } else if m == 7 {
        5
    } else if m == 8 {
        1
    } else if m == 9 {
        4
    } else if m == 10 {
        6
    } else if m == 11 {
        2
    } else {
        4
    }
}

fn weekday_name(w: u32) -> (r: &'static str)
    ensures
        r@ == weekday_abbrev(w as int),
{
    proof {
        reveal_strlit("Sun");
        reveal_strlit("Mon");
        reveal_strlit("Tue");
        reveal_strlit("Wed");
        reveal_strlit("Thu");
        reveal_strlit("Fri");
        reveal_strlit("Sat");
    }
    let r = if w == 0 {
        "Sun"
    } else if w == 1 {
        "Mon"
    } else if w == 2 {
        "Tue"
    } else if w == 3 {
        "Wed"
    } else if w == 4 {
        "Thu"
    } else if w == 5 {
        "Fri"
    } else {
        "Sat"
    };
    assert(r@ =~= weekday_abbrev(w as int));
    r
}

} // verus!
