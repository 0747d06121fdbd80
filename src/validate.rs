//! Plausibility checks on a snapshot: hard bounds that reject it, and soft
//! thresholds that only flag it.

use vstd::prelude::*;
use crate::snapshot::Snapshot;

verus! {

/// Lowest plausible temperature (-50.0 degrees Celsius).
pub const TEMPERATURE_MIN: i64 = -500_000;

/// Highest plausible temperature (60.0 degrees Celsius).
pub const TEMPERATURE_MAX: i64 = 600_000;

/// Lowest plausible humidity (0.0 percent).
pub const HUMIDITY_MIN: i64 = 0;

/// Highest plausible humidity (100.0 percent).
pub const HUMIDITY_MAX: i64 = 1_000_000;

/// Lowest plausible air quality index.
pub const AQI_MIN: i32 = 0;

/// Highest plausible air quality index.
pub const AQI_MAX: i32 = 500;

/// PM2.5 above this (50.0 ug/m3) is flagged.
pub const PM25_ALERT: i64 = 500_000;

/// CO2 above this (1000.0 ppm) is flagged.
pub const CO2_ALERT: i64 = 10_000_000;

/// A field that carries a hard bound.
#[derive(Clone, Copy, Debug, PartialEq, Eq, Structural)]
pub enum Field {
    Temperature,
    Humidity,
    Aqi,
}

impl Field {
    /// The field's name as reported in errors.
    pub fn name(&self) -> (r: &'static str)
        ensures
            *self == Field::Temperature ==> r@ == "temperature"@,
            *self == Field::Humidity ==> r@ == "humidity"@,
            *self == Field::Aqi ==> r@ == "aqi"@,
    {
        match self {
            Field::Temperature => "temperature",
            Field::Humidity => "humidity",
            Field::Aqi => "aqi",
        }
    }
}

/// Why a snapshot was rejected.
#[derive(Clone, Copy, Debug, PartialEq, Eq, Structural)]
pub enum ValidationError {
    OutOfRange(Field),
}

/// An unusual but accepted value.
#[derive(Clone, Copy, Debug, PartialEq, Eq, Structural)]
pub enum Anomaly {
    HighPm25,
    HighCo2,
}

pub open spec fn temperature_ok(s: Snapshot) -> bool {
    TEMPERATURE_MIN <= s.temperature <= TEMPERATURE_MAX
}

pub open spec fn humidity_ok(s: Snapshot) -> bool {
    HUMIDITY_MIN <= s.humidity <= HUMIDITY_MAX
}

pub open spec fn aqi_ok(s: Snapshot) -> bool {
    AQI_MIN <= s.air_quality.aqi <= AQI_MAX
}

/// All hard bounds hold.
pub open spec fn plausible(s: Snapshot) -> bool {
    temperature_ok(s) && humidity_ok(s) && aqi_ok(s)
}

/// What validation yields: the first failed bound, checked in the order
/// temperature, humidity, aqi; otherwise the snapshot itself.
pub open spec fn validation(s: Snapshot) -> Result<Snapshot, ValidationError> {
    if !temperature_ok(s) {
        Err(ValidationError::OutOfRange(Field::Temperature))
    } else if !humidity_ok(s) {
        Err(ValidationError::OutOfRange(Field::Humidity))
    } else if !aqi_ok(s) {
        Err(ValidationError::OutOfRange(Field::Aqi))
    } else {
        Ok(s)
    }
}

/// The anomalies flagged on `s`, high PM2.5 first.
pub open spec fn anomalies_of(s: Snapshot) -> Seq<Anomaly> {
    let pm = if s.air_quality.pm25 > PM25_ALERT { seq![Anomaly::HighPm25] } else { Seq::empty() };
    let co2 = if s.air_quality.co2 > CO2_ALERT { seq![Anomaly::HighCo2] } else { Seq::empty() };
    pm + co2
}

/// Checks the hard bounds; hands the snapshot back unchanged if they hold.
pub fn validate(s: Snapshot) -> (r: Result<Snapshot, ValidationError>)
    ensures
        r == validation(s),
{
    if s.temperature < TEMPERATURE_MIN || s.temperature > TEMPERATURE_MAX {
        return Err(ValidationError::OutOfRange(Field::Temperature));
    }
    if s.humidity < HUMIDITY_MIN || s.humidity > HUMIDITY_MAX {
        return Err(ValidationError::OutOfRange(Field::Humidity));
    }
    if s.air_quality.aqi < AQI_MIN || s.air_quality.aqi > AQI_MAX {
        return Err(ValidationError::OutOfRange(Field::Aqi));
    }
    Ok(s)
}

/// The soft-threshold flags raised by `s`; they never reject it.
pub fn anomalies(s: &Snapshot) -> (r: Vec<Anomaly>)
    ensures
        r@ == anomalies_of(*s),
{
    let mut r: Vec<Anomaly> = Vec::new();
    if s.air_quality.pm25 > PM25_ALERT {
        r.push(Anomaly::HighPm25);
    }
    if s.air_quality.co2 > CO2_ALERT {
        r.push(Anomaly::HighCo2);
    }
    proof {
        assert(r@ =~= anomalies_of(*s));
    }
    r
}

/// A snapshot within every hard bound passes validation unchanged.
pub proof fn lemma_plausible_passes(s: Snapshot)
    requires
        plausible(s),
    ensures
        validation(s) == Ok::<Snapshot, ValidationError>(s),
{
}

/// A snapshot that breaks exactly one hard bound is rejected naming that
/// field, whatever its other fields hold.
pub proof fn lemma_single_breach_named(s: Snapshot, f: Field)
    requires
        f == Field::Temperature ==> !temperature_ok(s) && humidity_ok(s) && aqi_ok(s),
        f == Field::Humidity ==> temperature_ok(s) && !humidity_ok(s) && aqi_ok(s),
        f == Field::Aqi ==> temperature_ok(s) && humidity_ok(s) && !aqi_ok(s),
    ensures
        validation(s) == Err::<Snapshot, ValidationError>(ValidationError::OutOfRange(f)),
{
}

/// Validation accepts exactly the plausible snapshots: the soft
/// thresholds never decide it. Two snapshots that differ only in their
/// PM2.5 and CO2 readings are validated alike.
pub proof fn lemma_flags_never_reject(s: Snapshot, t: Snapshot)
    requires
        t.temperature == s.temperature,
        t.humidity == s.humidity,
        t.air_quality.aqi == s.air_quality.aqi,
    ensures
        validation(s) is Ok <==> plausible(s),
        validation(s) is Ok <==> validation(t) is Ok,
{
}

} // verus!
