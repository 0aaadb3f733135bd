use surf_forecast::calendar::CivilDate;
use surf_forecast::forecast::{
    header_text, reading_at, render_day, render_week, HourlyData, HourlySpotForecast,
};

fn date(y: i32, m: u32, d: u32) -> CivilDate {
    CivilDate::new(y, m, d).unwrap()
}

fn readings(v: &[Option<&str>]) -> Option<Vec<Option<String>>> {
    Some(v.iter().map(|r| r.map(|s| s.to_string())).collect())
}

fn forecast(
    times: &[&str],
    height: Option<Vec<Option<String>>>,
    period: Option<Vec<Option<String>>>,
) -> HourlySpotForecast {
    HourlySpotForecast {
        hourly: HourlyData {
            time: times.iter().map(|s| s.to_string()).collect(),
            wave_height: height,
            wave_direction: None,
            wave_period: period,
        },
    }
}

#[test]
fn single_day_with_null_period() {
    let f = forecast(
        &["2024-03-01T09:00"],
        readings(&[Some("1.2")]),
        readings(&[None]),
    );
    let lines = render_day(&f, date(2024, 3, 1)).unwrap();
    assert_eq!(lines, vec!["DAY: Fri  1", "⏰: 9, 🌊: 1.2, ⏱️: 0"]);
}

#[test]
fn timestamp_gives_hour_and_date() {
    let f = forecast(&["2024-03-01T14:00"], readings(&[Some("0.8")]), readings(&[Some("7")]));
    let lines = render_day(&f, date(2024, 3, 1)).unwrap();
    assert_eq!(lines, vec!["DAY: Fri  1", "⏰: 14, 🌊: 0.8, ⏱️: 7"]);
    let other = render_day(&f, date(2024, 3, 2)).unwrap();
    assert_eq!(other, vec!["DAY: Sat  2"]);
}

#[test]
fn day_keeps_matching_rows_in_order() {
    let f = forecast(
        &[
            "2024-02-29T23:00",
            "2024-03-01T00:00",
            "2024-03-01T05:00",
            "2024-03-02T00:00",
            "2024-03-01T22:00",
        ],
        readings(&[Some("1"), Some("2"), Some("3"), Some("4"), Some("5")]),
        readings(&[Some("10"), Some("20"), Some("30"), Some("40"), Some("50")]),
    );
    let lines = render_day(&f, date(2024, 3, 1)).unwrap();
    assert_eq!(
        lines,
        vec![
            "DAY: Fri  1",
            "⏰: 0, 🌊: 2, ⏱️: 20",
            "⏰: 5, 🌊: 3, ⏱️: 30",
            "⏰: 22, 🌊: 5, ⏱️: 50",
        ]
    );
}

#[test]
fn absent_series_read_as_zero() {
    let f = forecast(&["2024-03-01T09:00", "2024-03-01T10:00"], None, readings(&[Some("8.5")]));
    let lines = render_day(&f, date(2024, 3, 1)).unwrap();
    assert_eq!(lines, vec!["DAY: Fri  1", "⏰: 9, 🌊: 0, ⏱️: 8.5", "⏰: 10, 🌊: 0, ⏱️: 0"]);
}

#[test]
fn reading_lookup() {
    let series = readings(&[Some("1.5"), None]);
    assert_eq!(reading_at(&series, 0), "1.5");
    assert_eq!(reading_at(&series, 1), "0");
    assert_eq!(reading_at(&series, 2), "0");
    assert_eq!(reading_at(&None, 0), "0");
}

#[test]
fn empty_series_gives_header_only() {
    let f = forecast(&[], None, None);
    assert_eq!(render_day(&f, date(2024, 3, 1)).unwrap(), vec!["DAY: Fri  1"]);
}

#[test]
fn malformed_timestamp_fails() {
    let f = forecast(&["2024-03-01T09:00", "2024-03-01 10:00", "bad"], None, None);
    let e = render_day(&f, date(2024, 3, 1)).unwrap_err();
    assert_eq!(e.index, 1);
    assert_eq!(e.text, "2024-03-01 10:00");
    let e = render_week(&f, date(2024, 3, 1)).unwrap_err();
    assert_eq!(e.index, 1);
}

#[test]
fn week_has_seven_headers_across_month_end() {
    let f = forecast(
        &["2024-02-28T06:00", "2024-03-04T12:00", "2024-03-05T12:00"],
        readings(&[Some("1.1"), Some("2.2"), Some("3.3")]),
        readings(&[Some("9"), None, Some("11")]),
    );
    let lines = render_week(&f, date(2024, 2, 27)).unwrap();
    assert_eq!(
        lines,
        vec![
            "DAY: Tue 27",
            "DAY: Wed 28",
            "⏰: 6, 🌊: 1.1, ⏱️: 9",
            "DAY: Thu 29",
            "DAY: Fri  1",
            "DAY: Sat  2",
            "DAY: Sun  3",
            "DAY: Mon  4",
            "⏰: 12, 🌊: 2.2, ⏱️: 0",
        ]
    );
    let headers = lines.iter().filter(|l| l.starts_with("DAY: ")).count();
    assert_eq!(headers, 7);
}

#[test]
fn week_blocks_match_days() {
    let f = forecast(
        &["2023-12-30T01:00", "2023-12-31T02:00", "2024-01-01T03:00", "2024-01-05T04:00"],
        readings(&[Some("1"), Some("2"), Some("3"), Some("4")]),
        None,
    );
    let start = date(2023, 12, 30);
    let week = render_week(&f, start).unwrap();
    let mut expected: Vec<String> = Vec::new();
    let mut d = start;
    for _ in 0..7 {
        expected.extend(render_day(&f, d).unwrap());
        d = d.next_day();
    }
    assert_eq!(week, expected);
    assert_eq!(week[0], "DAY: Sat 30");
    assert_eq!(header_text(&date(2024, 1, 5)), "DAY: Fri  5");
}
