//! The hourly marine forecast and its rendering, one day or one week at a time.

use vstd::prelude::*;

use crate::calendar::CivilDate;
use crate::stamp::{naive_stamp, parse_stamp};
use crate::text::{decimal, decimal_text};

verus! {

/// One reading series: `None` where the service left the series out; within
/// it, each reading is the text that its number prints as, or `None` where
/// the service sent null or no number.
pub type Readings = Option<Vec<Option<String>>>;

/// The hourly series of a forecast, aligned by index.
#[derive(Debug)]
pub struct HourlyData {
    pub time: Vec<String>,
    pub wave_height: Readings,
    pub wave_direction: Readings,
    pub wave_period: Readings,
}

/// A marine forecast as the service returns it.
#[derive(Debug)]
pub struct HourlySpotForecast {
    pub hourly: HourlyData,
}

/// A timestamp of the series that does not parse: its index and its text.
#[derive(Debug)]
pub struct StampError {
    pub index: usize,
    pub text: String,
}

/// The texts of a sequence of strings.
pub open spec fn texts(v: Seq<String>) -> Seq<Seq<char>> {
    v.map_values(|s: String| s@)
}

/// The reading of a series at index `i`, with `0` for a missing series,
/// index or value.
pub open spec fn reading_text(series: Readings, i: int) -> Seq<char> {
    match series {
        Some(v) => if 0 <= i < v@.len() {
            match v@[i] {
                Some(t) => t@,
                None => seq!['0'],
            }
        } else {
            seq!['0']
        },
        None => seq!['0'],
    }
}

/// Year, month, day and hour of the timestamp at index `i`.
pub open spec fn stamp_at(f: HourlySpotForecast, i: int) -> Option<(int, int, int, int)> {
    naive_stamp(f.hourly.time@[i]@)
}

pub open spec fn all_stamps_parse(f: HourlySpotForecast) -> bool {
    forall|i: int| 0 <= i < f.hourly.time@.len() ==> (#[trigger] stamp_at(f, i)) is Some
}

/// `j` is the first index whose timestamp does not parse.
pub open spec fn first_bad_stamp(f: HourlySpotForecast, j: int) -> bool {
    &&& 0 <= j < f.hourly.time@.len()
    &&& stamp_at(f, j) is None
    &&& forall|i: int| 0 <= i < j ==> (#[trigger] stamp_at(f, i)) is Some
}

/// The entry at index `i` falls on the calendar day `d`.
pub open spec fn on_date(f: HourlySpotForecast, d: CivilDate, i: int) -> bool {
    match stamp_at(f, i) {
        Some(p) => p.0 == d.year && p.1 == d.month && p.2 == d.day,
        None => false,
    }
}

pub open spec fn row_line(hour: int, height: Seq<char>, period: Seq<char>) -> Seq<char> {
    "⏰: "@ + decimal(hour as nat) + ", 🌊: "@ + height + ", ⏱️: "@ + period
}

/// The row of the entry at index `i`: its hour, wave height and wave period.
pub open spec fn row_at(f: HourlySpotForecast, i: int) -> Seq<char> {
    match stamp_at(f, i) {
        Some(p) => row_line(
            p.3,
            reading_text(f.hourly.wave_height, i),
            reading_text(f.hourly.wave_period, i),
        ),
        None => seq![],
    }
}

/// The indices below `n` of the entries on day `d`, in series order.
pub open spec fn day_indices(f: HourlySpotForecast, d: CivilDate, n: nat) -> Seq<int>
    decreases n,
{
    if n == 0 {
        seq![]
    } else {
        let s = day_indices(f, d, (n - 1) as nat);
        if on_date(f, d, n - 1) {
            s.push(n - 1)
        } else {
            s
        }
    }
}

pub open spec fn day_rows(f: HourlySpotForecast, d: CivilDate) -> Seq<Seq<char>> {
    day_indices(f, d, f.hourly.time@.len()).map_values(|i: int| row_at(f, i))
}

pub open spec fn header_line(d: CivilDate) -> Seq<char> {
    "DAY: "@ + d.spec_label()
}

/// What is printed for day `d`: its header, then its rows.
pub open spec fn day_lines(f: HourlySpotForecast, d: CivilDate) -> Seq<Seq<char>> {
    seq![header_line(d)] + day_rows(f, d)
}

/// The lines of the `k` days from `d` on.
pub open spec fn week_lines(f: HourlySpotForecast, d: CivilDate, k: nat) -> Seq<Seq<char>>
    decreases k,
{
    if k == 0 {
        seq![]
    } else {
        week_lines(f, d, (k - 1) as nat) + day_lines(f, d.days_after((k - 1) as nat))
    }
}

proof fn lemma_day_indices(f: HourlySpotForecast, d: CivilDate, n: nat)
    ensures
        forall|k: int|
            0 <= k < day_indices(f, d, n).len() ==> 0 <= #[trigger] day_indices(f, d, n)[k] < n
                && on_date(f, d, day_indices(f, d, n)[k]),
        forall|k1: int, k2: int|
            0 <= k1 < k2 < day_indices(f, d, n).len() ==> day_indices(f, d, n)[k1]
                < day_indices(f, d, n)[k2],
        forall|i: int| 0 <= i < n && on_date(f, d, i) ==> day_indices(f, d, n).contains(i),
    decreases n,
{
    if n > 0 {
        lemma_day_indices(f, d, (n - 1) as nat);
        let s = day_indices(f, d, (n - 1) as nat);
        assert forall|i: int| 0 <= i < n && on_date(f, d, i) implies day_indices(
            f,
            d,
            n,
        ).contains(i) by {
            if i < n - 1 {
                let k = choose|k: int| 0 <= k < s.len() && s[k] == i;
                if on_date(f, d, n - 1) {
                    assert(s.push(n - 1)[k] == i);
                }
            } else {
                assert(s.push(n - 1)[s.len() as int] == i);
            }
        }
    }
}

/// The rows for day `d` are exactly one per entry of the series that falls
/// on `d`, each the row of that entry, in series order.
pub proof fn lemma_day_rows_select(f: HourlySpotForecast, d: CivilDate)
    ensures
        ({
            let n = f.hourly.time@.len();
            let idx = day_indices(f, d, n);
            &&& day_rows(f, d).len() == idx.len()
            &&& forall|k: int|
                0 <= k < idx.len() ==> 0 <= #[trigger] idx[k] < n && on_date(f, d, idx[k])
                    && day_rows(f, d)[k] == row_at(f, idx[k])
            &&& forall|k1: int, k2: int| 0 <= k1 < k2 < idx.len() ==> idx[k1] < idx[k2]
            &&& forall|i: int| 0 <= i < n && on_date(f, d, i) ==> idx.contains(i)
        }),
{
    lemma_day_indices(f, d, f.hourly.time@.len());
}

/// A week is seven blocks for the consecutive days from `d` on, each its
/// header followed by that day's rows.
pub proof fn lemma_week_is_seven_days(f: HourlySpotForecast, d: CivilDate)
    ensures
        week_lines(f, d, 7) == day_lines(f, d) + day_lines(f, d.days_after(1)) + day_lines(
            f,
            d.days_after(2),
        ) + day_lines(f, d.days_after(3)) + day_lines(f, d.days_after(4)) + day_lines(
            f,
            d.days_after(5),
        ) + day_lines(f, d.days_after(6)),
        forall|k: nat| k < 7 ==> (#[trigger] d.days_after(k + 1)) == d.days_after(k).spec_next(),
        forall|k: nat| #[trigger]
            day_lines(f, d.days_after(k))[0] == header_line(d.days_after(k)),
{
    reveal_with_fuel(week_lines, 8);
    assert(d.days_after(0) == d);
    assert(week_lines(f, d, 0) + day_lines(f, d) =~= day_lines(f, d));
    assert forall|k: nat| k < 7 implies (#[trigger] d.days_after(k + 1)) == d.days_after(
        k,
    ).spec_next() by {
        assert((k + 1 - 1) as nat == k);
    }
}

/// The reading at index `i`, with `0` in place of any missing value.
pub fn reading_at(series: &Readings, i: usize) -> (r: String)
    ensures
        r@ == reading_text(*series, i as int),
{
    proof {
        reveal_strlit("0");
    }
    match series {
        Some(v) => {
            if i < v.len() {
                match &v[i] {
                    Some(t) => t.clone(),
                    None => String::from_str("0"),
                }
            } else {
                String::from_str("0")
            }
        },
        None => String::from_str("0"),
    }
}

/// The header line of day `d`, such as `DAY: Fri  1`.
pub fn header_text(d: &CivilDate) -> (r: String)
    requires
        d.wf(),
    ensures
        r@ == header_line(*d),
{
    let mut r = String::from_str("DAY: ");
    let l = d.label();
    r.append(l.as_str());
    r
}

fn row_text(hour: u32, height: String, period: String) -> (r: String)
    ensures
        r@ == row_line(hour as int, height@, period@),
{
    let mut r = String::from_str("⏰: ");
    let h = decimal_text(hour as u64);
    r.append(h.as_str());
    r.append(", 🌊: ");
    r.append(height.as_str());
    r.append(", ⏱️: ");
    r.append(period.as_str());
    r
}

/// The lines for day `date`: a header, then one row for each entry of the
/// series on that day, in series order. Fails on the first timestamp that
/// does not parse.
pub fn render_day(forecast: &HourlySpotForecast, date: CivilDate) -> (r: Result<
    Vec<String>,
    StampError,
>)
    requires
        date.wf(),
    ensures
        r is Ok <==> all_stamps_parse(*forecast),
        r matches Ok(lines) ==> texts(lines@) == day_lines(*forecast, date),
        r matches Err(e) ==> first_bad_stamp(*forecast, e.index as int) && e.text@
            == forecast.hourly.time@[e.index as int]@,
{
    let ghost f = *forecast;
    let times = &forecast.hourly.time;
    let mut lines: Vec<String> = Vec::new();
    lines.push(header_text(&date));
    let mut i: usize = 0;
    while i < times.len()
        invariant
            f == *forecast,
            times == &forecast.hourly.time,
            i <= times@.len(),
            forall|j: int| 0 <= j < i ==> (#[trigger] stamp_at(f, j)) is Some,
            texts(lines@) == seq![header_line(date)] + day_indices(f, date, i as nat).map_values(
                |j: int| row_at(f, j),
            ),
        decreases times@.len() - i,
    {
        match parse_stamp(times[i].as_str()) {
            None => {
                return Err(StampError { index: i, text: times[i].clone() });
            },
            Some(t) => {
                assert(stamp_at(f, i as int) == Some((t.0 as int, t.1 as int, t.2 as int, t.3 as int)));
                let ghost before = lines@;
                if t.0 == date.year && t.1 == date.month && t.2 == date.day {
                    let h = reading_at(&forecast.hourly.wave_height, i);
                    let p = reading_at(&forecast.hourly.wave_period, i);
                    lines.push(row_text(t.3, h, p));
                    assert(day_indices(f, date, (i + 1) as nat) == day_indices(f, date, i as nat).push(i as int));
                    assert(texts(lines@) =~= texts(before).push(row_at(f, i as int)));
                    assert(day_indices(f, date, (i + 1) as nat).map_values(|j: int| row_at(f, j))
                        =~= day_indices(f, date, i as nat).map_values(|j: int| row_at(f, j)).push(row_at(f, i as int)));
                } else {
                    assert(day_indices(f, date, (i + 1) as nat) == day_indices(f, date, i as nat));
                }
            },
        }
        i += 1;
    }
    assert(texts(lines@) =~= day_lines(f, date));
    Ok(lines)
}

/// The lines for the seven days from `start` on: for each day its header and
/// rows, as `render_day` gives them. Fails on the first timestamp that does
/// not parse.
pub fn render_week(forecast: &HourlySpotForecast, start: CivilDate) -> (r: Result<
    Vec<String>,
    StampError,
>)
    requires
        start.wf(),
        start.year + 7 <= i32::MAX,
    ensures
        r is Ok <==> all_stamps_parse(*forecast),
        r matches Ok(lines) ==> texts(lines@) == week_lines(*forecast, start, 7),
        r matches Err(e) ==> first_bad_stamp(*forecast, e.index as int) && e.text@
            == forecast.hourly.time@[e.index as int]@,
{
    let mut lines: Vec<String> = Vec::new();
    let mut day = start;
    let mut k: usize = 0;
    while k < 7
        invariant
            k <= 7,
            day == start.days_after(k as nat),
            day.wf(),
            day.year <= start.year + k,
            start.year + 7 <= i32::MAX,
            k > 0 ==> all_stamps_parse(*forecast),
            texts(lines@) == week_lines(*forecast, start, k as nat),
        decreases 7 - k,
    {
        let mut block = render_day(forecast, day)?;
        let ghost before = lines@;
        let ghost added = block@;
        lines.append(&mut block);
        assert(texts(lines@) =~= texts(before) + texts(added));
        day = day.next_day();
        k += 1;
    }
    Ok(lines)
}

} // verus!
