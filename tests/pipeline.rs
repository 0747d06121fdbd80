use eco_oracle::cycle::{conclude, plan_submission, rejected, CycleAction, CycleOutcome, SubmitError, CYCLE_INTERVAL_SECS};
use eco_oracle::fallback::{after_attempt, begin_fetch, mock_snapshot_now, FetchAction};
use eco_oracle::network::{default_network_key, default_networks, real_apis_enabled, resolve_network, ConfigError, NetworkEntry};
use eco_oracle::provider::{
    iqair_snapshot, iqair_snapshot_now, openweather_snapshot, openweather_snapshot_now, request_for, AirReading,
    FetchError, Provider, ProviderConfig, WeatherReading,
};
use eco_oracle::snapshot::{mock_snapshot, Snapshot};
use eco_oracle::validate::{anomalies, validate, Anomaly, Field, ValidationError};

fn nominal() -> Snapshot {
    mock_snapshot(1_700_000_000, "sensor-a".to_string())
}

fn config(ow: Option<&str>, iq: Option<&str>, doe: Option<&str>, real: bool) -> ProviderConfig {
    ProviderConfig {
        openweather_api_key: ow.map(|s| s.to_string()),
        iqair_api_key: iq.map(|s| s.to_string()),
        doe_api_key: doe.map(|s| s.to_string()),
        use_real_apis: real,
    }
}

/// Runs the fallback machine, answering each attempt from `answer`.
fn drive(
    use_real_apis: bool,
    mut answer: impl FnMut(Provider) -> Result<Snapshot, FetchError>,
    asked: &mut Vec<Provider>,
) -> Snapshot {
    let mut action = begin_fetch(use_real_apis);
    loop {
        match action {
            FetchAction::Attempt(p) => {
                asked.push(p);
                action = after_attempt(p, answer(p));
            }
            FetchAction::Deliver(s) => return s,
            FetchAction::UseMock => return mock_snapshot_now(),
        }
    }
}

#[test]
fn absent_credential_is_not_configured() {
    let c = config(None, None, None, true);
    for p in [Provider::OpenWeather, Provider::IqAir, Provider::Doe] {
        assert_eq!(request_for(&c, p), Err(FetchError::NotConfigured));
    }
}

#[test]
fn doe_with_credential_is_unimplemented() {
    let c = config(None, None, Some("k"), true);
    assert_eq!(request_for(&c, Provider::Doe), Err(FetchError::Unimplemented));
}

#[test]
fn request_urls_embed_the_key() {
    let c = config(Some("OWKEY"), Some("IQKEY"), None, true);
    let ow = request_for(&c, Provider::OpenWeather).unwrap();
    assert_eq!(ow.provider, Provider::OpenWeather);
    assert_eq!(
        ow.url,
        "https://api.openweathermap.org/data/2.5/weather?lat=3.139&lon=101.6869&appid=OWKEY&units=metric"
    );
    let iq = request_for(&c, Provider::IqAir).unwrap();
    assert_eq!(iq.provider, Provider::IqAir);
    assert_eq!(iq.url, "http://api.waqi.info/feed/@kuala-lumpur/?token=IQKEY");
}

#[test]
fn plausible_snapshot_passes_unchanged() {
    let mut s = nominal();
    s.temperature = -500_000;
    s.humidity = 1_000_000;
    s.air_quality.aqi = 500;
    let expected = s.clone();
    assert_eq!(validate(s), Ok(expected));
    let mut t = nominal();
    t.temperature = 600_000;
    t.humidity = 0;
    t.air_quality.aqi = 0;
    let expected = t.clone();
    assert_eq!(validate(t), Ok(expected));
}

#[test]
fn single_breach_names_its_field() {
    let mut s = nominal();
    s.temperature = -500_001;
    s.pressure = -1;
    assert_eq!(validate(s), Err(ValidationError::OutOfRange(Field::Temperature)));
    let mut s = nominal();
    s.humidity = 1_000_001;
    s.air_quality.pm25 = 99_999_999;
    assert_eq!(validate(s), Err(ValidationError::OutOfRange(Field::Humidity)));
    let mut s = nominal();
    s.humidity = -1;
    assert_eq!(validate(s), Err(ValidationError::OutOfRange(Field::Humidity)));
    let mut s = nominal();
    s.air_quality.aqi = 501;
    assert_eq!(validate(s), Err(ValidationError::OutOfRange(Field::Aqi)));
    let mut s = nominal();
    s.air_quality.aqi = -1;
    assert_eq!(validate(s), Err(ValidationError::OutOfRange(Field::Aqi)));
}

#[test]
fn field_names() {
    assert_eq!(Field::Temperature.name(), "temperature");
    assert_eq!(Field::Humidity.name(), "humidity");
    assert_eq!(Field::Aqi.name(), "aqi");
}

#[test]
fn openweather_has_priority() {
    let mut asked = Vec::new();
    let s = drive(
        true,
        |p| match p {
            Provider::OpenWeather => Ok(mock_snapshot(1, "ow".to_string())),
            Provider::IqAir => Ok(mock_snapshot(2, "iq".to_string())),
            Provider::Doe => Err(FetchError::Unimplemented),
        },
        &mut asked,
    );
    assert_eq!(s.sensor_id, "ow");
    assert_eq!(asked, vec![Provider::OpenWeather]);
}

#[test]
fn falls_through_to_second_provider() {
    let mut asked = Vec::new();
    let s = drive(
        true,
        |p| match p {
            Provider::OpenWeather => Err(FetchError::RequestFailed),
            Provider::IqAir => Ok(mock_snapshot(2, "iq".to_string())),
            Provider::Doe => Err(FetchError::Unimplemented),
        },
        &mut asked,
    );
    assert_eq!(s.sensor_id, "iq");
    assert_eq!(asked, vec![Provider::OpenWeather, Provider::IqAir]);
}

#[test]
fn exhaustion_yields_mock_with_fresh_ids() {
    let c = config(None, Some("k"), None, true);
    let mut ids = Vec::new();
    for _ in 0..2 {
        let mut asked = Vec::new();
        let s = drive(
            true,
            |p| match request_for(&c, p) {
                Err(e) => Err(e),
                Ok(_) => Err(FetchError::RequestFailed),
            },
            &mut asked,
        );
        assert_eq!(asked, vec![Provider::OpenWeather, Provider::IqAir, Provider::Doe]);
        assert_eq!(s.location.city, "Kuala Lumpur");
        assert_eq!(s.air_quality.aqi, 45);
        assert_eq!(s.sensor_id.len(), 36);
        ids.push(s.sensor_id);
    }
    assert_ne!(ids[0], ids[1]);
}

#[test]
fn mock_path_submits_once() {
    let mut asked = Vec::new();
    let s = drive(false, |_| panic!("no provider may be asked"), &mut asked);
    assert!(asked.is_empty());
    assert_eq!(s.location.city, "Kuala Lumpur");
    assert_eq!(s.location.country, "MY");
    assert_eq!(s.air_quality.aqi, 45);
    assert_eq!(s.temperature, 225_000);
    assert!(s.timestamp > 1_600_000_000);
    let expected = s.clone();
    assert_eq!(plan_submission(s), CycleAction::Submit(expected));
    assert_eq!(conclude(Ok(())), CycleOutcome::Submitted);
}

#[test]
fn hard_rejection_skips_submission() {
    let mut s = nominal();
    s.temperature = 750_000;
    match plan_submission(s) {
        CycleAction::Abandon(e) => {
            assert_eq!(e, ValidationError::OutOfRange(Field::Temperature));
            assert_eq!(rejected(e), CycleOutcome::Rejected(e));
            let ValidationError::OutOfRange(f) = e;
            assert_eq!(f.name(), "temperature");
        }
        CycleAction::Submit(_) => panic!("an implausible snapshot was submitted"),
    }
}

#[test]
fn soft_flag_still_submits() {
    let mut s = nominal();
    s.air_quality.pm25 = 600_000;
    assert_eq!(anomalies(&s), vec![Anomaly::HighPm25]);
    let expected = s.clone();
    assert_eq!(plan_submission(s), CycleAction::Submit(expected));
}

#[test]
fn anomaly_thresholds() {
    let mut s = nominal();
    assert!(anomalies(&s).is_empty());
    s.air_quality.pm25 = 500_000;
    s.air_quality.co2 = 10_000_000;
    assert!(anomalies(&s).is_empty());
    s.air_quality.pm25 = 500_001;
    s.air_quality.co2 = 10_000_001;
    assert_eq!(anomalies(&s), vec![Anomaly::HighPm25, Anomaly::HighCo2]);
    s.air_quality.pm25 = 0;
    assert_eq!(anomalies(&s), vec![Anomaly::HighCo2]);
}

#[test]
fn openweather_gap_fill() {
    let w = WeatherReading { temperature: Some(301_500), humidity: Some(800_000), pressure: Some(10_080_000) };
    let s = openweather_snapshot(w, 42, "id".to_string());
    assert_eq!(s.air_quality.pm25, 125_000);
    assert_eq!(s.air_quality.pm10, 253_000);
    assert_eq!(s.air_quality.co2, 4_150_000);
    assert_eq!(s.air_quality.tvoc, 8_000);
    assert_eq!(s.air_quality.aqi, 45);
    assert_eq!(s.temperature, 301_500);
    assert_eq!(s.humidity, 800_000);
    assert_eq!(s.pressure, 10_080_000);
    assert_eq!(s.timestamp, 42);
    assert_eq!(s.sensor_id, "id");
    assert_eq!(s.location.latitude, 31_390);
    assert_eq!(s.location.longitude, 1_016_869);
}

#[test]
fn openweather_missing_fields_default() {
    let w = WeatherReading { temperature: None, humidity: Some(100), pressure: None };
    let s = openweather_snapshot(w, 0, String::new());
    assert_eq!(s.temperature, 225_000);
    assert_eq!(s.humidity, 100);
    assert_eq!(s.pressure, 10_132_500);
}

#[test]
fn iqair_mapping() {
    let a = AirReading { pm25: Some(351_000), pm10: None, aqi: Some(97) };
    let s = iqair_snapshot(a, 7, "x".to_string());
    assert_eq!(s.air_quality.pm25, 351_000);
    assert_eq!(s.air_quality.pm10, 253_000);
    assert_eq!(s.air_quality.co2, 4_150_000);
    assert_eq!(s.air_quality.tvoc, 8_000);
    assert_eq!(s.air_quality.aqi, 97);
    assert_eq!(s.temperature, 225_000);
    assert_eq!(s.humidity, 650_000);
    assert_eq!(s.pressure, 10_132_500);
    let b = AirReading { pm25: None, pm10: None, aqi: None };
    assert_eq!(iqair_snapshot(b, 7, "x".to_string()).air_quality.aqi, 45);
    let c = AirReading { pm25: None, pm10: None, aqi: Some((1i64 << 32) + 7) };
    assert_eq!(iqair_snapshot(c, 7, "x".to_string()).air_quality.aqi, 7);
}

#[test]
fn stamped_snapshots_draw_fresh_ids() {
    let w = WeatherReading { temperature: Some(1), humidity: None, pressure: None };
    let a = openweather_snapshot_now(w);
    let b = openweather_snapshot_now(w);
    assert_eq!(a.temperature, 1);
    assert_eq!(a.sensor_id.len(), 36);
    assert_ne!(a.sensor_id, b.sensor_id);
    assert!(a.timestamp > 1_600_000_000);
    let r = AirReading { pm25: Some(5), pm10: None, aqi: None };
    let c = iqair_snapshot_now(r);
    assert_eq!(c.air_quality.pm25, 5);
    assert_eq!(c.sensor_id.len(), 36);
}

#[test]
fn submit_failure_ends_cycle() {
    assert_eq!(conclude(Err(SubmitError::SubmitFailed)), CycleOutcome::SubmitFailed(SubmitError::SubmitFailed));
    assert_eq!(CYCLE_INTERVAL_SECS, 30);
}

#[test]
fn default_network_resolves() {
    let entries = default_networks();
    assert_eq!(entries.len(), 1);
    assert_eq!(entries[0].chain_id, 31337);
    let t = resolve_network(&entries, &default_network_key()).unwrap();
    assert_eq!(t.contract_address, "0x5FbDB2315678afecb367f032d93F642f64180aa3");
    assert_eq!(t.network_name, "Hardhat Local");
}

#[test]
fn unknown_network_is_an_error() {
    let mut entries = default_networks();
    entries.push(NetworkEntry {
        key: "sapphire".to_string(),
        environmental_oracle: "0xabc".to_string(),
        chain_id: 23294,
        name: "Sapphire".to_string(),
    });
    assert_eq!(resolve_network(&entries, &"mainnet".to_string()), Err(ConfigError::NetworkNotFound));
    let t = resolve_network(&entries, &"sapphire".to_string()).unwrap();
    assert_eq!(t.contract_address, "0xabc");
    assert_eq!(resolve_network(&Vec::new(), &"hardhat".to_string()), Err(ConfigError::NetworkNotFound));
}

#[test]
fn real_apis_switch() {
    assert!(real_apis_enabled(&Some("true".to_string())));
    assert!(!real_apis_enabled(&Some("TRUE".to_string())));
    assert!(!real_apis_enabled(&Some("1".to_string())));
    assert!(!real_apis_enabled(&None));
}
