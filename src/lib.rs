//! Surf forecast: the verified core of a command-line tool that looks up a
//! surf spot, fetches its hourly marine forecast and renders wave readings
//! for today or for the coming week.

pub mod calendar;
pub mod forecast;
pub mod pipeline;
pub mod stamp;
pub mod text;
