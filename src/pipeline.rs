//! The steps of a run: the requests to make, what each reply leads to, and
//! the diagnostics printed when a step fails.

use vstd::prelude::*;

use crate::calendar::CivilDate;
use crate::forecast::{
    all_stamps_parse,
    day_lines,
    first_bad_stamp,
    render_day,
    render_week,
    texts,
    week_lines,
    HourlySpotForecast,
};
use crate::text::{decimal, decimal_text};

verus! {

/// A candidate place found by the geocoder.
#[derive(Debug)]
pub struct SpotCoordinates {
    pub lat: String,
    pub lon: String,
    pub name: String,
    pub display_name: String,
}

/// Why a request to a service failed.
#[derive(Debug)]
pub enum FetchError {
    /// The request could not be made or its reply not read.
    Network(String),
    /// The reply's body does not have the expected shape.
    Parse(String),
    /// The service answered with a status other than 200, with the body of
    /// the reply where it is reported.
    Upstream { status: u16, body: Option<String> },
}

/// What follows the geocoder's reply.
#[derive(Debug)]
pub enum Next {
    /// Print this diagnostic and stop.
    Report(String),
    /// Fetch the forecast at this URL.
    Fetch(String),
}

pub open spec fn is_unreserved(c: char) -> bool {
    ('a' <= c && c <= 'z') || ('A' <= c && c <= 'Z') || ('0' <= c && c <= '9') || c == '-' || c
        == '_' || c == '.' || c == '~'
}

pub open spec fn hex_upper(n: int) -> char {
    seq!['0', '1', '2', '3', '4', '5', '6', '7', '8', '9', 'A', 'B', 'C', 'D', 'E', 'F'][n]
}

/// A character as it stands in a query: unreserved and non-ASCII characters
/// as they are (the HTTP client encodes the latter as UTF-8), any other ASCII
/// character as `%` and two hexadecimal digits.
pub open spec fn escape_char(c: char) -> Seq<char> {
    if is_unreserved(c) || c as u32 >= 128 {
        seq![c]
    } else {
        seq!['%', hex_upper((c as u32 / 16) as int), hex_upper((c as u32 % 16) as int)]
    }
}

pub open spec fn escape_query(s: Seq<char>) -> Seq<char>
    decreases s.len(),
{
    if s.len() == 0 {
        seq![]
    } else {
        escape_query(s.drop_last()) + escape_char(s.last())
    }
}

pub open spec fn geocode_url_text(spot: Seq<char>) -> Seq<char> {
    "https://nominatim.openstreetmap.org/search?q="@ + escape_query(spot) + "&format=json"@
}

pub open spec fn forecast_url_text(lat: Seq<char>, lon: Seq<char>) -> Seq<char> {
    "https://marine-api.open-meteo.com/v1/marine?latitude="@ + lat + "&longitude="@ + lon
        + "&hourly=wave_height,wave_direction,wave_period"@
}

pub open spec fn diagnostic_text(e: FetchError) -> Seq<char> {
    match e {
        FetchError::Network(m) => m@,
        FetchError::Parse(m) => m@,
        FetchError::Upstream { status, body } => match body {
            None => "Unexpected status code: "@ + decimal(status as nat),
            Some(b) => "Status code: "@ + decimal(status as nat) + ". Reason: "@ + b@,
        },
    }
}

pub open spec fn no_match_text() -> Seq<char> {
    "No coordinates found. Maybe you misspelled the spot name?"@
}

fn escape_one(s: &str, i: usize) -> (r: String)
    requires
        i < s@.len() <= usize::MAX,
    ensures
        r@ == escape_char(s@[i as int]),
{
    let c = s.get_char(i);
    let code = c as u32;
    if ('a' <= c && c <= 'z') || ('A' <= c && c <= 'Z') || ('0' <= c && c <= '9') || c == '-'
        || c == '_' || c == '.' || c == '~' || code >= 128 {
        let r = String::from_str(s.substring_char(i, i + 1));
        assert(r@ =~= seq![c]);
        r
    } else {
        let hex = "0123456789ABCDEF";
        proof {
            reveal_strlit("0123456789ABCDEF");
            reveal_strlit("%");
        }
        let hi = (code / 16) as usize;
        let lo = (code % 16) as usize;
        let mut r = String::from_str("%");
        r.append(hex.substring_char(hi, hi + 1));
        r.append(hex.substring_char(lo, lo + 1));
        assert(r@ =~= escape_char(c));
        r
    }
}

/// The text of `spot` with every reserved ASCII character percent-encoded.
pub fn escape_query_text(spot: &str) -> (r: String)
    ensures
        r@ == escape_query(spot@),
{
    let n = spot.unicode_len();
    let mut r = String::new();
    let mut i: usize = 0;
    while i < n
        invariant
            n == spot@.len(),
            i <= n,
            r@ == escape_query(spot@.subrange(0, i as int)),
        decreases n - i,
    {
        let e = escape_one(spot, i);
        r.append(e.as_str());
        assert(spot@.subrange(0, i + 1).drop_last() =~= spot@.subrange(0, i as int));
        i += 1;
    }
    assert(spot@.subrange(0, n as int) =~= spot@);
    r
}

/// The geocoder's search URL for a spot name.
pub fn geocode_url(spot: &str) -> (r: String)
    ensures
        r@ == geocode_url_text(spot@),
{
    let mut r = String::from_str("https://nominatim.openstreetmap.org/search?q=");
    let q = escape_query_text(spot);
    r.append(q.as_str());
    r.append("&format=json");
    r
}

/// The marine forecast URL for a latitude and longitude.
pub fn forecast_url(lat: &str, lon: &str) -> (r: String)
    ensures
        r@ == forecast_url_text(lat@, lon@),
{
    let mut r = String::from_str("https://marine-api.open-meteo.com/v1/marine?latitude=");
    r.append(lat);
    r.append("&longitude=");
    r.append(lon);
    r.append("&hourly=wave_height,wave_direction,wave_period");
    r
}

/// The geocoder's reply is read only with status 200; any other status is
/// an upstream error that carries the status alone.
pub fn geocode_status(status: u16) -> (r: Result<(), FetchError>)
    ensures
        r is Ok <==> status == 200,
        r matches Err(e) ==> e == (FetchError::Upstream { status, body: None }),
{
    if status == 200 {
        Ok(())
    } else {
        Err(FetchError::Upstream { status, body: None })
    }
}

/// The forecast's reply is read only with status 200; any other status is
/// an upstream error that carries the status and the reply's body.
pub fn forecast_status(status: u16, body: String) -> (r: Result<(), FetchError>)
    ensures
        r is Ok <==> status == 200,
        r matches Err(e) ==> e == (FetchError::Upstream { status, body: Some(body) }),
{
    if status == 200 {
        Ok(())
    } else {
        Err(FetchError::Upstream { status, body: Some(body) })
    }
}

impl FetchError {
    /// The one-line description of the error.
    pub fn diagnostic(&self) -> (r: String)
        ensures
            r@ == diagnostic_text(*self),
    {
        match self {
            FetchError::Network(m) => m.clone(),
            FetchError::Parse(m) => m.clone(),
            FetchError::Upstream { status, body } => match body {
                None => {
                    let mut r = String::from_str("Unexpected status code: ");
                    let s = decimal_text(*status as u64);
                    r.append(s.as_str());
                    r
                },
                Some(b) => {
                    let mut r = String::from_str("Status code: ");
                    let s = decimal_text(*status as u64);
                    r.append(s.as_str());
                    r.append(". Reason: ");
                    r.append(b.as_str());
                    r
                },
            },
        }
    }
}

/// What the geocoder's outcome leads to: a diagnostic where it failed or
/// found nothing, else the forecast request for its first candidate.
pub fn after_geocode(result: Result<Vec<SpotCoordinates>, FetchError>) -> (r: Next)
    ensures
        match result {
            Err(e) => r matches Next::Report(m) && m@ == "Error: "@ + diagnostic_text(e),
            Ok(v) => if v@.len() == 0 {
                r matches Next::Report(m) && m@ == no_match_text()
            } else {
                r matches Next::Fetch(u) && u@ == forecast_url_text(v@[0].lat@, v@[0].lon@)
            },
        },
{
    match result {
        Err(e) => {
            let mut m = String::from_str("Error: ");
            let d = e.diagnostic();
            m.append(d.as_str());
            Next::Report(m)
        },
        Ok(v) => {
            if v.len() == 0 {
                Next::Report(
                    String::from_str("No coordinates found. Maybe you misspelled the spot name?"),
                )
            } else {
                let first = &v[0];
                Next::Fetch(forecast_url(first.lat.as_str(), first.lon.as_str()))
            }
        },
    }
}

/// What the forecast's outcome leads to: the lines to print, for the week
/// from `today` on or for `today` alone, or a diagnostic.
pub fn after_forecast(
    result: Result<HourlySpotForecast, FetchError>,
    week: bool,
    today: CivilDate,
) -> (r: Result<Vec<String>, String>)
    requires
        today.wf(),
        today.year + 7 <= i32::MAX,
    ensures
        match result {
            Err(e) => r matches Err(m) && m@ == "Error fetching forecast: "@ + diagnostic_text(e),
            Ok(f) => if all_stamps_parse(f) {
                r matches Ok(lines) && texts(lines@) == if week {
                    week_lines(f, today, 7)
                } else {
                    day_lines(f, today)
                }
            } else {
                r matches Err(m) && exists|j: int|
                    first_bad_stamp(f, j) && m@ == "Malformed forecast timestamp: "@
                        + f.hourly.time@[j]@
            },
        },
{
    match result {
        Err(e) => {
            let mut m = String::from_str("Error fetching forecast: ");
            let d = e.diagnostic();
            m.append(d.as_str());
            Err(m)
        },
        Ok(f) => {
            let rendered = if week {
                render_week(&f, today)
            } else {
                render_day(&f, today)
            };
            match rendered {
                Ok(lines) => Ok(lines),
                Err(se) => {
                    let mut m = String::from_str("Malformed forecast timestamp: ");
                    m.append(se.text.as_str());
                    Err(m)
                },
            }
        },
    }
}

} // verus!
