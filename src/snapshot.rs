//! The snapshot model: one complete environmental reading.

use vstd::prelude::*;
use vstd::string::StringExecFns;

verus! {

/// Fixed-point scale: a stored value `v` stands for `v / SCALE` of its unit.
pub const SCALE: i64 = 10_000;

/// Latitude of the monitoring site (3.1390 degrees).
pub const SITE_LATITUDE: i64 = 31_390;

/// Longitude of the monitoring site (101.6869 degrees).
pub const SITE_LONGITUDE: i64 = 1_016_869;

/// Default PM2.5 reading (12.5 ug/m3).
pub const DEFAULT_PM25: i64 = 125_000;

/// Default PM10 reading (25.3 ug/m3).
pub const DEFAULT_PM10: i64 = 253_000;

/// Default CO2 reading (415.0 ppm).
pub const DEFAULT_CO2: i64 = 4_150_000;

/// Default TVOC reading (0.8).
pub const DEFAULT_TVOC: i64 = 8_000;

/// Default air quality index.
pub const DEFAULT_AQI: i32 = 45;

/// Default temperature (22.5 degrees Celsius).
pub const DEFAULT_TEMPERATURE: i64 = 225_000;

/// Default relative humidity (65.0 percent).
pub const DEFAULT_HUMIDITY: i64 = 650_000;

/// Default pressure (1013.25 hPa).
pub const DEFAULT_PRESSURE: i64 = 10_132_500;

/// Air-quality part of a snapshot; concentrations in ten-thousandths.
#[derive(Clone, Debug, PartialEq)]
pub struct AirQuality {
    pub pm25: i64,
    pub pm10: i64,
    pub co2: i64,
    pub tvoc: i64,
    pub aqi: i32,
}

/// Where a snapshot was taken; coordinates in ten-thousandths of a degree.
#[derive(Clone, Debug, PartialEq)]
pub struct Location {
    pub latitude: i64,
    pub longitude: i64,
    pub city: String,
    pub country: String,
}

/// One complete environmental reading. Every field is always present.
#[derive(Clone, Debug, PartialEq)]
pub struct Snapshot {
    /// Seconds since the Unix epoch, taken when the reading was made.
    pub timestamp: i64,
    pub air_quality: AirQuality,
    /// Degrees Celsius, in ten-thousandths.
    pub temperature: i64,
    /// Relative humidity in percent, in ten-thousandths.
    pub humidity: i64,
    /// Hectopascals, in ten-thousandths.
    pub pressure: i64,
    pub location: Location,
    /// Identifier drawn afresh for each snapshot.
    pub sensor_id: String,
}

/// The site every provider reports for.
pub open spec fn is_site(l: Location) -> bool {
    &&& l.latitude == SITE_LATITUDE
    &&& l.longitude == SITE_LONGITUDE
    &&& l.city@ == "Kuala Lumpur"@
    &&& l.country@ == "MY"@
}

/// Air-quality values used where a provider supplies none.
pub open spec fn is_default_air(a: AirQuality) -> bool {
    &&& a.pm25 == DEFAULT_PM25
    &&& a.pm10 == DEFAULT_PM10
    &&& a.co2 == DEFAULT_CO2
    &&& a.tvoc == DEFAULT_TVOC
    &&& a.aqi == DEFAULT_AQI
}

/// Weather values used where a provider supplies none.
pub open spec fn has_default_weather(s: Snapshot) -> bool {
    &&& s.temperature == DEFAULT_TEMPERATURE
    &&& s.humidity == DEFAULT_HUMIDITY
    &&& s.pressure == DEFAULT_PRESSURE
}

/// `s` is the fixed mock reading made at `timestamp` with identifier `id`.
pub open spec fn is_mock(s: Snapshot, timestamp: i64, id: Seq<char>) -> bool {
    &&& s.timestamp == timestamp
    &&& is_default_air(s.air_quality)
    &&& has_default_weather(s)
    &&& is_site(s.location)
    &&& s.sensor_id@ == id
}

/// The location of the monitoring site.
pub fn site_location() -> (r: Location)
    ensures
        is_site(r),
{
    Location {
        latitude: SITE_LATITUDE,
        longitude: SITE_LONGITUDE,
        city: String::from_str("Kuala Lumpur"),
        country: String::from_str("MY"),
    }
}

/// The default air-quality values.
pub fn default_air_quality() -> (r: AirQuality)
    ensures
        is_default_air(r),
{
    AirQuality {
        pm25: DEFAULT_PM25,
        pm10: DEFAULT_PM10,
        co2: DEFAULT_CO2,
        tvoc: DEFAULT_TVOC,
        aqi: DEFAULT_AQI,
    }
}

/// The deterministic mock reading, stamped with `timestamp` and `sensor_id`.
pub fn mock_snapshot(timestamp: i64, sensor_id: String) -> (r: Snapshot)
    ensures
        is_mock(r, timestamp, sensor_id@),
{
    Snapshot {
        timestamp,
        air_quality: default_air_quality(),
        temperature: DEFAULT_TEMPERATURE,
        humidity: DEFAULT_HUMIDITY,
        pressure: DEFAULT_PRESSURE,
        location: site_location(),
        sensor_id,
    }
}

} // verus!
