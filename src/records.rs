//! The rows the store keeps, and how each is made from a city and a reading.

use vstd::prelude::*;
use crate::clock::{datetime_text, day_text, push_datetime_of, push_day_of};
use crate::ident::{city_key, derive_key};
use crate::model::{Float32, Float64, RecordKey};
use crate::text::push_str;
use crate::weather::WeatherResponse;

verus! {

/// Sunrise and sunset of a city on the day of a reading (Unix seconds).
#[derive(Clone, Debug)]
pub struct Sun {
    pub city: String,
    pub sunrise: u64,
    pub sunset: u64,
    pub date: u64,
}

/// A city of the directory. Its key in the store is derived from its name.
#[derive(Clone, Debug)]
pub struct City {
    pub id: Option<RecordKey>,
    pub country: Option<RecordKey>,
    pub name: String,
    pub lon: Float32,
    pub lat: Float32,
}

/// The main atmospheric values of one reading for one city.
#[derive(Clone, Debug)]
pub struct MainWeather {
    pub id: Option<RecordKey>,
    pub city: RecordKey,
    pub temp: Float64,
    pub feels_like: Float64,
    pub temp_min: Float64,
    pub temp_max: Float64,
    pub pressure: u32,
    pub humidity: u32,
    pub sea_level: u32,
    pub grnd_level: u32,
    pub date: u64,
}

/// A country, found by its code.
#[derive(Clone, Debug)]
pub struct Country {
    pub id: Option<RecordKey>,
    pub name: String,
    pub code: String,
}

/// The temperatures of one reading for one city.
#[derive(Clone, Debug)]
pub struct Temperature {
    pub city: RecordKey,
    pub temp: Float64,
    pub feels_like: Float64,
    pub temp_min: Float64,
    pub temp_max: Float64,
    pub date: u64,
}

/// The wind of one reading, with the city and country named in plain text.
#[derive(Clone, Debug)]
pub struct Wind {
    pub city: String,
    pub country: String,
    pub deg: u32,
    pub speed: Float64,
    pub gust: Option<Float64>,
    pub date: u64,
}

/// Whether `k` is the store key of the city named `name`.
pub open spec fn is_city_ref(k: RecordKey, name: Seq<char>) -> bool {
    k.table@ == "city"@ && k.key@ == city_key(name)
}

/// The main-weather row for city `c` and reading `r`.
pub open spec fn is_main_weather_of(m: MainWeather, c: City, r: WeatherResponse) -> bool {
    &&& m.id is None
    &&& is_city_ref(m.city, c.name@)
    &&& m.temp == r.main.temp
    &&& m.feels_like == r.main.feels_like
    &&& m.temp_min == r.main.temp_min
    &&& m.temp_max == r.main.temp_max
    &&& m.pressure == r.main.pressure
    &&& m.humidity == r.main.humidity
    &&& m.sea_level == r.main.sea_level
    &&& m.grnd_level == r.main.grnd_level
    &&& m.date == r.dt
}

/// The sun row for city `c` and reading `r`.
pub open spec fn is_sun_of(s: Sun, c: City, r: WeatherResponse) -> bool {
    &&& s.city@ == c.name@
    &&& s.sunrise == r.sys.sunrise
    &&& s.sunset == r.sys.sunset
    &&& s.date == r.dt
}

/// The temperature row for city `c` and reading `r`.
pub open spec fn is_temperature_of(t: Temperature, c: City, r: WeatherResponse) -> bool {
    &&& is_city_ref(t.city, c.name@)
    &&& t.temp == r.main.temp
    &&& t.feels_like == r.main.feels_like
    &&& t.temp_min == r.main.temp_min
    &&& t.temp_max == r.main.temp_max
    &&& t.date == r.dt
}

/// The wind row for city `c` and reading `r`.
pub open spec fn is_wind_of(w: Wind, c: City, r: WeatherResponse) -> bool {
    &&& w.city@ == c.name@
    &&& w.country@ == r.sys.country@
    &&& w.deg == r.wind.deg
    &&& w.speed == r.wind.speed
    &&& w.gust == r.wind.gust
    &&& w.date == r.dt
}

impl City {
    /// The store key of the city named `name`: table `city`, key derived from
    /// the name (lower case, spaces and hyphens to underscores, common
    /// accented letters to plain ones).
    pub fn create_id(name: &str) -> (r: RecordKey)
        ensures
            is_city_ref(r, name@),
    {
        let key = derive_key(name);
        RecordKey { table: String::from_str("city"), key }
    }
}

/// The main-weather row of a reading for a city.
pub fn to_main_weather(c: &City, r: &WeatherResponse) -> (m: MainWeather)
    ensures
        is_main_weather_of(m, *c, *r),
{
    MainWeather {
        id: None,
        city: City::create_id(c.name.as_str()),
        temp: r.main.temp,
        feels_like: r.main.feels_like,
        temp_min: r.main.temp_min,
        temp_max: r.main.temp_max,
        pressure: r.main.pressure,
        humidity: r.main.humidity,
        sea_level: r.main.sea_level,
        grnd_level: r.main.grnd_level,
        date: r.dt,
    }
}

/// The sun row of a reading for a city.
pub fn to_sun(c: &City, r: &WeatherResponse) -> (s: Sun)
    ensures
        is_sun_of(s, *c, *r),
{
    Sun { city: c.name.clone(), sunrise: r.sys.sunrise, sunset: r.sys.sunset, date: r.dt }
}

/// The temperature row of a reading for a city.
pub fn to_temperature(c: &City, r: &WeatherResponse) -> (t: Temperature)
    ensures
        is_temperature_of(t, *c, *r),
{
    Temperature {
        city: City::create_id(c.name.as_str()),
        temp: r.main.temp,
        feels_like: r.main.feels_like,
        temp_min: r.main.temp_min,
        temp_max: r.main.temp_max,
        date: r.dt,
    }
}

/// The wind row of a reading for a city.
pub fn to_wind(c: &City, r: &WeatherResponse) -> (w: Wind)
    ensures
        is_wind_of(w, *c, *r),
{
    Wind {
        city: c.name.clone(),
        country: r.sys.country.clone(),
        deg: r.wind.deg,
        speed: r.wind.speed,
        gust: r.wind.gust,
        date: r.dt,
    }
}

/// The main-weather and the temperature row of one reading carry the same
/// temperatures, both copied from the reading.
pub proof fn lemma_mappers_agree(
    m: MainWeather,
    t: Temperature,
    c: City,
    r: WeatherResponse,
)
    requires
        is_main_weather_of(m, c, r),
        is_temperature_of(t, c, r),
    ensures
        m.temp == r.main.temp,
        t.temp == r.main.temp,
        m.temp == t.temp,
        m.feels_like == t.feels_like,
        m.temp_min == t.temp_min,
        m.temp_max == t.temp_max,
        m.city.key@ == t.city.key@,
{
}

/// The summary of a sun row.
pub open spec fn sun_summary(s: Sun) -> Seq<char> {
    "City: "@ + s.city@ + ",\nDate: "@ + day_text(s.date) + "\nSunrise: "@ + datetime_text(
        s.sunrise,
    ) + "\nSunset: "@ + datetime_text(s.sunset)
}

impl Sun {
    /// Sunrise as `YYYY-MM-DD HH:MM:SS UTC`.
    pub fn format_sunrise(&self) -> (r: String)
        ensures
            r@ == datetime_text(self.sunrise),
    {
        let mut out = String::new();
        push_datetime_of(&mut out, self.sunrise);
        assert(out@ =~= datetime_text(self.sunrise));
        out
    }

    /// Sunset as `YYYY-MM-DD HH:MM:SS UTC`.
    pub fn format_sunset(&self) -> (r: String)
        ensures
            r@ == datetime_text(self.sunset),
    {
        let mut out = String::new();
        push_datetime_of(&mut out, self.sunset);
        assert(out@ =~= datetime_text(self.sunset));
        out
    }

    /// The day of the reading as `YYYY-MM-DD`.
    pub fn format_date(&self) -> (r: String)
        ensures
            r@ == day_text(self.date),
    {
        let mut out = String::new();
        push_day_of(&mut out, self.date);
        assert(out@ =~= day_text(self.date));
        out
    }

    /// City, day, sunrise and sunset, one per line.
    pub fn format_summary(&self) -> (r: String)
        ensures
            r@ == sun_summary(*self),
    {
        let mut out = String::new();
        push_str(&mut out, "City: ");
        push_str(&mut out, self.city.as_str());
        push_str(&mut out, ",\nDate: ");
        push_day_of(&mut out, self.date);
        push_str(&mut out, "\nSunrise: ");
        push_datetime_of(&mut out, self.sunrise);
        push_str(&mut out, "\nSunset: ");
        push_datetime_of(&mut out, self.sunset);
        assert(out@ =~= sun_summary(*self));
        out
    }
}

impl Temperature {
    /// The day of the reading as `YYYY-MM-DD`.
    pub fn format_date(&self) -> (r: String)
        ensures
            r@ == day_text(self.date),
    {
        let mut out = String::new();
        push_day_of(&mut out, self.date);
        assert(out@ =~= day_text(self.date));
        out
    }
}

} // verus!
