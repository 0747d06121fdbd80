//! Provider adapters: which request each provider needs, and how each one's
//! payload maps onto a complete snapshot.

use vstd::prelude::*;
use vstd::string::StringExecFns;
use crate::clock::{fresh_sensor_id, now_timestamp};
use crate::snapshot::{
    default_air_quality, is_default_air, is_site, site_location, AirQuality, Snapshot, DEFAULT_AQI,
    DEFAULT_CO2, DEFAULT_HUMIDITY, DEFAULT_PM10, DEFAULT_PM25, DEFAULT_PRESSURE,
    DEFAULT_TEMPERATURE, DEFAULT_TVOC,
};

verus! {

/// A data provider, listed in priority order.
#[derive(Clone, Copy, Debug, PartialEq, Eq, Structural)]
pub enum Provider {
    OpenWeather,
    IqAir,
    Doe,
}

/// Why a provider yielded no snapshot.
#[derive(Clone, Copy, Debug, PartialEq, Eq, Structural)]
pub enum FetchError {
    /// No credential was given for the provider.
    NotConfigured,
    /// The request or its transport failed.
    RequestFailed,
    /// The provider is not built yet.
    Unimplemented,
}

/// Credentials of each provider, and whether providers are tried at all.
#[derive(Clone, Debug)]
pub struct ProviderConfig {
    pub openweather_api_key: Option<String>,
    pub iqair_api_key: Option<String>,
    pub doe_api_key: Option<String>,
    pub use_real_apis: bool,
}

/// One outbound request to a provider's endpoint.
#[derive(Clone, Debug, PartialEq)]
pub struct Request {
    pub provider: Provider,
    pub url: String,
}

/// The fields an OpenWeather response may carry, in ten-thousandths.
#[derive(Clone, Copy, Debug, PartialEq, Eq)]
pub struct WeatherReading {
    pub temperature: Option<i64>,
    pub humidity: Option<i64>,
    pub pressure: Option<i64>,
}

/// The fields an IQAir response may carry: concentrations in
/// ten-thousandths, and the index as the payload's integer.
#[derive(Clone, Copy, Debug, PartialEq, Eq)]
pub struct AirReading {
    pub pm25: Option<i64>,
    pub pm10: Option<i64>,
    pub aqi: Option<i64>,
}

/// The value read, or the default where the payload had none.
pub open spec fn or_default(v: Option<i64>, d: i64) -> i64 {
    match v {
        Some(x) => x,
        None => d,
    }
}

/// The low 32 bits of `x`, read as a signed integer.
pub open spec fn low_i32(x: i64) -> i32 {
    x as i32
}

impl ProviderConfig {
    /// The credential given for `p`.
    pub open spec fn key_of(self, p: Provider) -> Option<String> {
        match p {
            Provider::OpenWeather => self.openweather_api_key,
            Provider::IqAir => self.iqair_api_key,
            Provider::Doe => self.doe_api_key,
        }
    }
}

pub open spec fn openweather_url(key: Seq<char>) -> Seq<char> {
    "https://api.openweathermap.org/data/2.5/weather?lat=3.139&lon=101.6869&appid="@ + key
        + "&units=metric"@
}

pub open spec fn iqair_url(key: Seq<char>) -> Seq<char> {
    "http://api.waqi.info/feed/@kuala-lumpur/?token="@ + key
}

/// What asking provider `p` amounts to under `config`.
pub open spec fn request_plan(config: ProviderConfig, p: Provider) -> Result<(Provider, Seq<char>), FetchError> {
    match config.key_of(p) {
        None => Err(FetchError::NotConfigured),
        Some(k) => match p {
            Provider::OpenWeather => Ok((p, openweather_url(k@))),
            Provider::IqAir => Ok((p, iqair_url(k@))),
            Provider::Doe => Err(FetchError::Unimplemented),
        },
    }
}

/// The request to send to `p`, or why none is sent. A provider without a
/// credential fails with `NotConfigured` and no request is made.
pub fn request_for(config: &ProviderConfig, p: Provider) -> (r: Result<Request, FetchError>)
    ensures
        match (r, request_plan(*config, p)) {
            (Ok(q), Ok((pp, url))) => q.provider == pp && q.url@ == url,
            (Err(e), Err(e2)) => e == e2,
            _ => false,
        },
{
    let key = match p {
        Provider::OpenWeather => &config.openweather_api_key,
        Provider::IqAir => &config.iqair_api_key,
        Provider::Doe => &config.doe_api_key,
    };
    match key {
        None => Err(FetchError::NotConfigured),
        Some(k) => match p {
            Provider::OpenWeather => {
                let mut url = String::from_str(
                    "https://api.openweathermap.org/data/2.5/weather?lat=3.139&lon=101.6869&appid=",
                );
                url.append(k.as_str());
                url.append("&units=metric");
                Ok(Request { provider: p, url })
            },
            Provider::IqAir => {
                let mut url = String::from_str("http://api.waqi.info/feed/@kuala-lumpur/?token=");
                url.append(k.as_str());
                Ok(Request { provider: p, url })
            },
            Provider::Doe => Err(FetchError::Unimplemented),
        },
    }
}

fn value_or(v: Option<i64>, d: i64) -> (r: i64)
    ensures
        r == or_default(v, d),
{
    match v {
        Some(x) => x,
        None => d,
    }
}

/// `s` is the snapshot an OpenWeather reading `w` yields at `timestamp`
/// with identifier `id`: weather from the reading, air quality defaulted.
pub open spec fn from_openweather(s: Snapshot, w: WeatherReading, timestamp: i64, id: Seq<char>) -> bool {
    &&& s.timestamp == timestamp
    &&& is_default_air(s.air_quality)
    &&& s.temperature == or_default(w.temperature, DEFAULT_TEMPERATURE)
    &&& s.humidity == or_default(w.humidity, DEFAULT_HUMIDITY)
    &&& s.pressure == or_default(w.pressure, DEFAULT_PRESSURE)
    &&& is_site(s.location)
    &&& s.sensor_id@ == id
}

/// `s` is the snapshot an IQAir reading `a` yields at `timestamp` with
/// identifier `id`: particulates and index from the reading, the rest
/// defaulted.
pub open spec fn from_iqair(s: Snapshot, a: AirReading, timestamp: i64, id: Seq<char>) -> bool {
    &&& s.timestamp == timestamp
    &&& s.air_quality.pm25 == or_default(a.pm25, DEFAULT_PM25)
    &&& s.air_quality.pm10 == or_default(a.pm10, DEFAULT_PM10)
    &&& s.air_quality.co2 == DEFAULT_CO2
    &&& s.air_quality.tvoc == DEFAULT_TVOC
    &&& s.air_quality.aqi == low_i32(or_default(a.aqi, DEFAULT_AQI as i64))
    &&& s.temperature == DEFAULT_TEMPERATURE
    &&& s.humidity == DEFAULT_HUMIDITY
    &&& s.pressure == DEFAULT_PRESSURE
    &&& is_site(s.location)
    &&& s.sensor_id@ == id
}

/// The snapshot an OpenWeather reading yields, stamped as given.
pub fn openweather_snapshot(w: WeatherReading, timestamp: i64, sensor_id: String) -> (r: Snapshot)
    ensures
        from_openweather(r, w, timestamp, sensor_id@),
{
    Snapshot {
        timestamp,
        air_quality: default_air_quality(),
        temperature: value_or(w.temperature, DEFAULT_TEMPERATURE),
        humidity: value_or(w.humidity, DEFAULT_HUMIDITY),
        pressure: value_or(w.pressure, DEFAULT_PRESSURE),
        location: site_location(),
        sensor_id,
    }
}

/// The snapshot an IQAir reading yields, stamped as given. An index that
/// does not fit in 32 bits keeps its low 32 bits.
pub fn iqair_snapshot(a: AirReading, timestamp: i64, sensor_id: String) -> (r: Snapshot)
    ensures
        from_iqair(r, a, timestamp, sensor_id@),
{
    let aqi: i64 = value_or(a.aqi, DEFAULT_AQI as i64);
    Snapshot {
        timestamp,
        air_quality: AirQuality {
            pm25: value_or(a.pm25, DEFAULT_PM25),
            pm10: value_or(a.pm10, DEFAULT_PM10),
            co2: DEFAULT_CO2,
            tvoc: DEFAULT_TVOC,
            aqi: aqi as i32,
        },
        temperature: DEFAULT_TEMPERATURE,
        humidity: DEFAULT_HUMIDITY,
        pressure: DEFAULT_PRESSURE,
        location: site_location(),
        sensor_id,
    }
}

/// The snapshot an OpenWeather reading yields now, with a fresh identifier.
pub fn openweather_snapshot_now(w: WeatherReading) -> (r: Snapshot)
    ensures
        from_openweather(r, w, r.timestamp, r.sensor_id@),
        r.sensor_id@.len() == 36,
{
    let timestamp = now_timestamp();
    let id = fresh_sensor_id();
    openweather_snapshot(w, timestamp, id)
}

/// The snapshot an IQAir reading yields now, with a fresh identifier.
pub fn iqair_snapshot_now(a: AirReading) -> (r: Snapshot)
    ensures
        from_iqair(r, a, r.timestamp, r.sensor_id@),
        r.sensor_id@.len() == 36,
{
    let timestamp = now_timestamp();
    let id = fresh_sensor_id();
    iqair_snapshot(a, timestamp, id)
}

/// A provider without a credential always fails with `NotConfigured`, and
/// so is never sent a request.
pub proof fn lemma_unconfigured_not_asked(config: ProviderConfig, p: Provider)
    requires
        config.key_of(p) is None,
    ensures
        request_plan(config, p) == Err::<(Provider, Seq<char>), FetchError>(FetchError::NotConfigured),
{
}

} // verus!
