//! A decoded current-weather reading for one city, as the provider sends it.

use vstd::prelude::*;
use crate::clock::{datetime_text, format_datetime_of};
use crate::model::Float64;

verus! {

/// One reading: atmosphere, wind, clouds, conditions, sun times and the
/// observation time (`dt`, Unix seconds) for one place.
#[derive(Clone, Debug)]
pub struct WeatherResponse {
    pub base: String,
    pub clouds: Clouds,
    pub cod: u32,
    pub coord: Coordinates,
    pub dt: u64,
    pub id: u32,
    pub main: Main,
    pub name: String,
    pub sys: Sys,
    pub timezone: u32,
    pub visibility: u32,
    pub weather: Vec<Weather>,
    pub wind: Wind,
    pub rain: Option<Rain>,
}

/// Cloud cover, in percent.
#[derive(Clone, Copy, Debug, PartialEq, Eq, Structural)]
pub struct Clouds {
    pub all: u32,
}

/// Coordinates as the provider reports them, in degrees.
#[derive(Clone, Copy, Debug, PartialEq, Eq, Structural)]
pub struct Coordinates {
    pub lat: Float64,
    pub lon: Float64,
}

/// Temperatures (degrees Celsius), pressures (hPa) and humidity (percent).
#[derive(Clone, Copy, Debug, PartialEq, Eq, Structural)]
pub struct Main {
    pub feels_like: Float64,
    pub grnd_level: u32,
    pub humidity: u32,
    pub pressure: u32,
    pub sea_level: u32,
    pub temp: Float64,
    pub temp_max: Float64,
    pub temp_min: Float64,
}

/// Country code and sunrise and sunset (Unix seconds).
#[derive(Clone, Debug)]
pub struct Sys {
    pub country: String,
    pub id: Option<u32>,
    pub sunrise: u64,
    pub sunset: u64,
    pub type_id: Option<u32>,
}

/// One textual condition.
#[derive(Clone, Debug)]
pub struct Weather {
    pub description: String,
    pub icon: String,
    pub id: u32,
    pub main: String,
}

/// Wind direction (degrees), speed and gust (metres per second).
#[derive(Clone, Copy, Debug, PartialEq, Eq, Structural)]
pub struct Wind {
    pub deg: u32,
    pub speed: Float64,
    pub gust: Option<Float64>,
}

/// Rain over the last hour and the last three hours (millimetres).
#[derive(Clone, Copy, Debug, PartialEq, Eq, Structural)]
pub struct Rain {
    pub one_hour: Option<Float64>,
    pub three_hours: Option<Float64>,
}

impl WeatherResponse {
    /// The observation time as `YYYY-MM-DD HH:MM:SS UTC`.
    pub fn format_datetime(&self) -> (r: String)
        ensures
            r@ == datetime_text(self.dt),
    {
        format_datetime_of(self.dt)
    }
}

} // verus!
