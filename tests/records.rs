use weather_pipeline::clock::{format_datetime_of, format_day_of};
use weather_pipeline::ident::{derive_key, fold_key};
use weather_pipeline::model::{Float32, Float64, RecordKey};
use weather_pipeline::records::{to_main_weather, to_sun, to_temperature, to_wind, City, Sun, Temperature};
use weather_pipeline::text::{push_padded, same_text};
use weather_pipeline::weather::{Clouds, Coordinates, Main, Sys, Weather, WeatherResponse, Wind};

fn f64v(x: f64) -> Float64 {
    Float64 { bits: x.to_bits() }
}

fn city(name: &str, country: Option<&str>) -> City {
    City {
        id: None,
        country: country.map(|c| RecordKey::new("country", c)),
        name: name.to_string(),
        lon: Float32 { bits: 2.3522f32.to_bits() },
        lat: Float32 { bits: 48.8566f32.to_bits() },
    }
}

fn reading(name: &str, temp: f64, dt: u64) -> WeatherResponse {
    WeatherResponse {
        base: "stations".to_string(),
        clouds: Clouds { all: 75 },
        cod: 200,
        coord: Coordinates { lat: f64v(48.8566), lon: f64v(2.3522) },
        dt,
        id: 2988507,
        main: Main {
            feels_like: f64v(temp - 1.5),
            grnd_level: 1003,
            humidity: 81,
            pressure: 1012,
            sea_level: 1014,
            temp: f64v(temp),
            temp_max: f64v(temp + 1.0),
            temp_min: f64v(temp - 2.0),
        },
        name: name.to_string(),
        sys: Sys { country: "FR".to_string(), id: Some(6550), sunrise: 1700030000, sunset: 1700064000, type_id: Some(2) },
        timezone: 3600,
        visibility: 10000,
        weather: vec![Weather {
            description: "broken clouds".to_string(),
            icon: "04d".to_string(),
            id: 803,
            main: "Clouds".to_string(),
        }],
        wind: Wind { deg: 240, speed: f64v(4.12), gust: Some(f64v(7.2)) },
        rain: None,
    }
}

#[test]
fn key_of_new_york() {
    let k = City::create_id("New York");
    assert_eq!(k.table, "city");
    assert_eq!(k.key, "new_york");
}

#[test]
fn key_of_malaga_folds_accent() {
    assert_eq!(City::create_id("Málaga").key, "malaga");
}

#[test]
fn key_of_hyphenated_accented_name() {
    assert_eq!(City::create_id("Saint-Étienne").key, "saint_etienne");
    assert_eq!(City::create_id("Aix-en-Provence").key, "aix_en_provence");
    assert_eq!(City::create_id("Besançon").key, "besancon");
}

#[test]
fn key_keeps_characters_outside_the_fold_set() {
    assert_eq!(City::create_id("Łódź").key, "łodź");
}

#[test]
fn key_is_deterministic_and_idempotent() {
    let a = derive_key("Le Mans");
    let b = derive_key("Le Mans");
    assert_eq!(a, b);
    assert_eq!(fold_key(&a), a);
    assert_eq!(derive_key(""), "");
}

#[test]
fn main_weather_and_temperature_share_the_reading_temperature() {
    let c = city("Paris", Some("FR"));
    let r = reading("Paris", 12.34, 1700000000);
    let m = to_main_weather(&c, &r);
    let t = to_temperature(&c, &r);
    assert_eq!(m.temp, r.main.temp);
    assert_eq!(t.temp, r.main.temp);
    assert_eq!(f64::from_bits(t.temp.bits), 12.34);
    assert_eq!(m.feels_like, t.feels_like);
    assert_eq!(m.temp_min, t.temp_min);
    assert_eq!(m.temp_max, t.temp_max);
    assert_eq!(m.pressure, 1012);
    assert_eq!(m.humidity, 81);
    assert_eq!(m.sea_level, 1014);
    assert_eq!(m.grnd_level, 1003);
    assert_eq!(m.date, 1700000000);
    assert!(m.id.is_none());
    assert_eq!(m.city.key, "paris");
    assert_eq!(t.city.key, "paris");
    assert_eq!(t.date, 1700000000);
}

#[test]
fn sun_and_wind_rows_copy_their_fields() {
    let c = city("Paris", Some("FR"));
    let r = reading("Paris", 8.0, 1700000000);
    let s = to_sun(&c, &r);
    assert_eq!(s.city, "Paris");
    assert_eq!(s.sunrise, 1700030000);
    assert_eq!(s.sunset, 1700064000);
    assert_eq!(s.date, 1700000000);
    let w = to_wind(&c, &r);
    assert_eq!(w.city, "Paris");
    assert_eq!(w.country, "FR");
    assert_eq!(w.deg, 240);
    assert_eq!(f64::from_bits(w.speed.bits), 4.12);
    assert_eq!(w.gust.map(|g| f64::from_bits(g.bits)), Some(7.2));
    assert_eq!(w.date, 1700000000);
}

#[test]
fn wind_without_gust() {
    let c = city("Nice", Some("FR"));
    let mut r = reading("Nice", 18.0, 1700000000);
    r.wind.gust = None;
    assert!(to_wind(&c, &r).gust.is_none());
}

#[test]
fn timestamps_as_utc_text() {
    assert_eq!(format_datetime_of(0), "1970-01-01 00:00:00 UTC");
    assert_eq!(format_datetime_of(1700000000), "2023-11-14 22:13:20 UTC");
    assert_eq!(format_day_of(1700000000), "2023-11-14");
    assert_eq!(format_datetime_of(253402300800), "+10000-01-01 00:00:00 UTC");
    assert_eq!(format_datetime_of(u64::MAX), "1969-12-31 23:59:59 UTC");
}

#[test]
fn out_of_range_timestamp_is_reported() {
    assert_eq!(format_datetime_of(1u64 << 62), "Invalid timestamp: 4611686018427387904");
    assert_eq!(format_day_of(1u64 << 62), "Invalid timestamp: 4611686018427387904");
}

#[test]
fn reading_observation_time() {
    let r = reading("Paris", 8.0, 1700000000);
    assert_eq!(r.format_datetime(), "2023-11-14 22:13:20 UTC");
}

#[test]
fn sun_formats() {
    let s = Sun { city: "Paris".to_string(), sunrise: 1700030000, sunset: 1700064000, date: 1700000000 };
    assert_eq!(s.format_sunrise(), "2023-11-15 06:33:20 UTC");
    assert_eq!(s.format_sunset(), "2023-11-15 16:00:00 UTC");
    assert_eq!(s.format_date(), "2023-11-14");
    assert_eq!(
        s.format_summary(),
        "City: Paris,\nDate: 2023-11-14\nSunrise: 2023-11-15 06:33:20 UTC\nSunset: 2023-11-15 16:00:00 UTC"
    );
}

#[test]
fn temperature_date() {
    let t = Temperature {
        city: City::create_id("Lyon"),
        temp: f64v(10.0),
        feels_like: f64v(9.0),
        temp_min: f64v(8.0),
        temp_max: f64v(11.0),
        date: 86400,
    };
    assert_eq!(t.format_date(), "1970-01-02");
}

#[test]
fn padded_numbers_and_text_equality() {
    let mut s = String::new();
    push_padded(&mut s, 7, 2);
    push_padded(&mut s, 123, 2);
    push_padded(&mut s, 0, 4);
    assert_eq!(s, "071230000");
    assert!(same_text("été", "été"));
    assert!(!same_text("été", "ete"));
    assert!(!same_text("ab", "abc"));
}
