use surf_forecast::calendar::CivilDate;
use surf_forecast::forecast::{HourlyData, HourlySpotForecast};
use surf_forecast::pipeline::{
    after_forecast, after_geocode, escape_query_text, forecast_status, forecast_url, geocode_status,
    geocode_url, FetchError, Next, SpotCoordinates,
};

fn spot(lat: &str, lon: &str, name: &str) -> SpotCoordinates {
    SpotCoordinates {
        lat: lat.to_string(),
        lon: lon.to_string(),
        name: name.to_string(),
        display_name: format!("{}, Somewhere", name),
    }
}

#[test]
fn first_candidate_is_used() {
    let next = after_geocode(Ok(vec![
        spot("21.66", "-158.05", "Banzai Pipeline"),
        spot("1.0", "2.0", "Other"),
        spot("3.0", "4.0", "Third"),
    ]));
    match next {
        Next::Fetch(url) => assert_eq!(
            url,
            "https://marine-api.open-meteo.com/v1/marine?latitude=21.66&longitude=-158.05&hourly=wave_height,wave_direction,wave_period"
        ),
        Next::Report(m) => panic!("unexpected report {}", m),
    }
}

#[test]
fn empty_geocoder_reply_reports_misspelling() {
    match after_geocode(Ok(vec![])) {
        Next::Report(m) => {
            assert_eq!(m, "No coordinates found. Maybe you misspelled the spot name?")
        }
        Next::Fetch(u) => panic!("unexpected request {}", u),
    }
}

#[test]
fn geocoder_503_reports_status() {
    let e = geocode_status(503).unwrap_err();
    assert!(matches!(e, FetchError::Upstream { status: 503, body: None }));
    match after_geocode(Err(e)) {
        Next::Report(m) => {
            assert_eq!(m, "Error: Unexpected status code: 503");
            assert!(m.contains("503"));
        }
        Next::Fetch(u) => panic!("unexpected request {}", u),
    }
    assert!(geocode_status(200).is_ok());
}

#[test]
fn forecast_error_carries_body() {
    let e = forecast_status(400, "bad latitude".to_string()).unwrap_err();
    assert_eq!(e.diagnostic(), "Status code: 400. Reason: bad latitude");
    assert!(forecast_status(200, String::new()).is_ok());
    let today = CivilDate::new(2024, 3, 1).unwrap();
    let r = after_forecast(Err(e), false, today);
    assert_eq!(r.unwrap_err(), "Error fetching forecast: Status code: 400. Reason: bad latitude");
}

#[test]
fn network_and_parse_errors_keep_their_text() {
    assert_eq!(FetchError::Network("connection refused".to_string()).diagnostic(), "connection refused");
    assert_eq!(FetchError::Parse("missing field `lat`".to_string()).diagnostic(), "missing field `lat`");
}

#[test]
fn urls_are_built() {
    assert_eq!(
        geocode_url("Banzai Pipeline"),
        "https://nominatim.openstreetmap.org/search?q=Banzai%20Pipeline&format=json"
    );
    assert_eq!(escape_query_text("a&b=c#d"), "a%26b%3Dc%23d");
    assert_eq!(escape_query_text("Nazaré-1_x.~"), "Nazaré-1_x.~");
    assert_eq!(escape_query_text(""), "");
    assert_eq!(
        forecast_url("1.5", "-2"),
        "https://marine-api.open-meteo.com/v1/marine?latitude=1.5&longitude=-2&hourly=wave_height,wave_direction,wave_period"
    );
}

fn one_entry(time: &str) -> HourlySpotForecast {
    HourlySpotForecast {
        hourly: HourlyData {
            time: vec![time.to_string()],
            wave_height: Some(vec![Some("1.2".to_string())]),
            wave_direction: Some(vec![Some("270".to_string())]),
            wave_period: Some(vec![None]),
        },
    }
}

#[test]
fn forecast_outcome_is_rendered() {
    let today = CivilDate::new(2024, 3, 1).unwrap();
    let day = after_forecast(Ok(one_entry("2024-03-01T09:00")), false, today).unwrap();
    assert_eq!(day, vec!["DAY: Fri  1", "⏰: 9, 🌊: 1.2, ⏱️: 0"]);
    let week = after_forecast(Ok(one_entry("2024-03-01T09:00")), true, today).unwrap();
    assert_eq!(week.len(), 8);
    assert_eq!(week[6], "DAY: Wed  6");
    let bad = after_forecast(Ok(one_entry("2024-03-01")), false, today).unwrap_err();
    assert_eq!(bad, "Malformed forecast timestamp: 2024-03-01");
}
