//! The weather report as the service sends it: the resolved place, the
//! present conditions, and three forecast days of twenty-four hours each.
//!
//! A measured quantity is kept as the decimal text in which it is reported,
//! so that it reaches the reader unchanged.

use vstd::prelude::*;

verus! {

/// Number of days in a forecast.
pub const FORECAST_DAYS: usize = 3;

/// Number of hourly entries in a forecast day.
pub const HOURS_PER_DAY: usize = 24;

/// A textual description of the weather, such as "Partly cloudy".
#[derive(Debug, Default, Clone)]
pub struct Condition {
    pub text: String,
}

/// Sunrise and sunset of a forecast day, as local clock times.
#[derive(Debug, Default, Clone)]
pub struct Astro {
    pub sunrise: String,
    pub sunset: String,
}

/// The place that the service resolved the query to.
#[derive(Debug, Default, Clone)]
pub struct Location {
    pub name: String,
    pub region: String,
    pub country: String,
    /// Latitude in degrees, as decimal text.
    pub lat: String,
    /// Longitude in degrees, as decimal text.
    pub lon: String,
    pub tz_id: String,
    pub localtime_epoch: i64,
    pub localtime: String,
}

/// The conditions at the time of the request. Temperatures, speeds, cloud
/// cover and the UV index are decimal text.
#[derive(Debug, Default, Clone)]
pub struct CurrentWeather {
    pub last_updated_epoch: i64,
    pub last_updated: String,
    pub temp_c: String,
    pub temp_f: String,
    pub is_day: i32,
    pub condition: Condition,
    pub wind_mph: String,
    pub wind_dir: String,
    pub cloud: String,
    pub feelslike_f: String,
    pub feelslike_c: String,
    pub uv: String,
    pub gust_mph: String,
}

/// The summary of one forecast day. All quantities are decimal text.
#[derive(Debug, Default, Clone)]
pub struct DailyValues {
    pub maxtemp_c: String,
    pub maxtemp_f: String,
    pub mintemp_c: String,
    pub mintemp_f: String,
    pub totalprecip_mm: String,
    pub totalprecip_in: String,
    pub avgvis_miles: String,
    pub daily_will_it_rain: String,
    pub daily_chance_of_rain: String,
    pub daily_will_it_snow: String,
    pub daily_chance_of_snow: String,
    pub condition: Condition,
}

/// The forecast for one hour of a day. All quantities are decimal text.
#[derive(Debug, Default, Clone)]
pub struct HourlyValues {
    pub time: String,
    pub temp_c: String,
    pub temp_f: String,
    pub is_day: String,
    pub condition: Condition,
    pub wind_mph: String,
    pub wind_dir: String,
    pub cloud: String,
    pub feelslike_c: String,
    pub feelslike_f: String,
}

/// One forecast day: its date, its summary, and its hours in order.
#[derive(Debug, Default, Clone)]
pub struct DayWeather {
    pub date: String,
    pub day: DailyValues,
    pub astro: Astro,
    pub hour: [HourlyValues; 24],
}

/// The forecast days, nearest first.
#[derive(Debug, Default, Clone)]
pub struct ForecastArr {
    pub forecastday: [DayWeather; 3],
}

/// A whole report: where, what now, and what next.
#[derive(Debug, Default, Clone)]
pub struct WeatherReport {
    pub location: Location,
    pub current: CurrentWeather,
    pub forecast: ForecastArr,
}

/// Every report has the fixed shape: three days of twenty-four hours.
pub proof fn lemma_report_shape(report: WeatherReport)
    ensures
        report.forecast.forecastday@.len() == FORECAST_DAYS,
        forall|d: int|
            0 <= d < FORECAST_DAYS ==> (#[trigger] report.forecast.forecastday@[d]).hour@.len()
                == HOURS_PER_DAY,
{
}

} // verus!
