use nws_exporter::exposition::{serve, RequestContext};
use nws_exporter::observation::{Measurement, Observation, Unit};
use nws_exporter::registry::MetricRegistry;
use nws_exporter::sampler::{
    FetchError, FetchErrorKind, Sampler, TickOutcome, Wake, DEFAULT_REFRESH_SECS,
};

fn seen_at(station: &str, values: [i64; 5]) -> Observation {
    Observation::new(
        station.to_string(),
        Measurement::new(values[0], Unit::DegreesCelsius),
        Measurement::new(values[1], Unit::Percent),
        Measurement::new(values[2], Unit::KilometersPerHour),
        Measurement::new(values[3], Unit::DegreesAngle),
        Measurement::new(values[4], Unit::Pascals),
    )
    .unwrap()
}

fn failure(kind: FetchErrorKind, message: &str) -> FetchError {
    FetchError::new(kind, message.to_string())
}

#[test]
fn sampler_keeps_its_configuration() {
    let sampler = Sampler::new("KBOS".to_string(), 60);
    assert_eq!(sampler.station(), "KBOS");
    assert_eq!(sampler.interval_secs(), 60);
    assert_eq!(sampler.last_failure(), None);
}

#[test]
fn default_interval_is_300_seconds() {
    assert_eq!(DEFAULT_REFRESH_SECS, 300);
    let sampler = Sampler::with_default_interval("KBOS".to_string());
    assert_eq!(sampler.interval_secs(), 300);
    assert_eq!(sampler.station(), "KBOS");
    assert_eq!(sampler, Sampler::new("KBOS".to_string(), 300));
}

#[test]
fn wake_fetches_until_shutdown_is_requested() {
    let sampler = Sampler::new("KBOS".to_string(), 1);
    assert_eq!(sampler.on_wake(false), Wake::Fetch);
    assert_eq!(sampler.on_wake(true), Wake::Stop);
}

#[test]
fn fetched_observation_is_published() {
    let mut registry = MetricRegistry::new();
    let mut sampler = Sampler::new("KBOS".to_string(), 1);
    let outcome = sampler.on_fetched(&mut registry, Ok(seen_at("KBOS", [1, 2, 3, 4, 5])));
    assert_eq!(outcome, TickOutcome::Updated);
    assert_eq!(sampler.last_failure(), None);

    let mut expected = MetricRegistry::new();
    expected.update(seen_at("KBOS", [1, 2, 3, 4, 5]));
    assert_eq!(registry, expected);
}

#[test]
fn failed_fetch_before_any_success_leaves_the_registry_empty() {
    let mut registry = MetricRegistry::new();
    let mut sampler = Sampler::new("KBOS".to_string(), 1);
    let outcome = sampler.on_fetched(
        &mut registry,
        Err(failure(FetchErrorKind::Network, "connection refused")),
    );
    assert_eq!(outcome, TickOutcome::Unchanged);
    assert_eq!(registry, MetricRegistry::new());
    assert!(registry.snapshot().is_empty());
}

#[test]
fn failed_fetch_leaves_the_snapshot_as_it_was() {
    let mut registry = MetricRegistry::new();
    let mut sampler = Sampler::new("KBOS".to_string(), 1);
    sampler.on_fetched(&mut registry, Ok(seen_at("KBOS", [1, 2, 3, 4, 5])));
    let before = registry.snapshot();
    for kind in [
        FetchErrorKind::Network,
        FetchErrorKind::MalformedResponse,
        FetchErrorKind::UpstreamStatus,
    ] {
        let outcome = sampler.on_fetched(&mut registry, Err(failure(kind, "failed")));
        assert_eq!(outcome, TickOutcome::Unchanged);
        assert_eq!(registry.snapshot(), before);
    }
}

#[test]
fn failure_is_remembered_with_category_and_message() {
    let mut registry = MetricRegistry::new();
    let mut sampler = Sampler::new("KBOS".to_string(), 1);
    sampler.on_fetched(
        &mut registry,
        Err(failure(FetchErrorKind::UpstreamStatus, "503 Service Unavailable")),
    );
    assert_eq!(
        sampler.last_failure(),
        Some(&failure(FetchErrorKind::UpstreamStatus, "503 Service Unavailable"))
    );

    sampler.on_fetched(
        &mut registry,
        Err(failure(FetchErrorKind::MalformedResponse, "no temperature")),
    );
    let last = sampler.last_failure().unwrap();
    assert_eq!(last.kind, FetchErrorKind::MalformedResponse);
    assert_eq!(last.message, "no temperature");

    // A later success publishes, and the last failure stays on record.
    sampler.on_fetched(&mut registry, Ok(seen_at("KBOS", [1, 2, 3, 4, 5])));
    assert_eq!(
        sampler.last_failure(),
        Some(&failure(FetchErrorKind::MalformedResponse, "no temperature"))
    );
    assert_eq!(sampler.station(), "KBOS");
    assert_eq!(sampler.interval_secs(), 1);
}

#[test]
fn snapshot_after_each_tick_is_of_that_ticks_observation() {
    let mut registry = MetricRegistry::new();
    let mut sampler = Sampler::new("KBOS".to_string(), 1);
    for tick in 1..=4_i64 {
        let values = [tick, tick * 10, tick * 100, tick * 1000, -tick];
        sampler.on_fetched(&mut registry, Ok(seen_at("KBOS", values)));
        let mut expected = MetricRegistry::new();
        expected.update(seen_at("KBOS", values));
        assert_eq!(registry.snapshot(), expected.snapshot());
    }
}

#[test]
fn failed_second_fetch_keeps_the_first_temperature() {
    // Refresh interval of one tick unit, station TEST1; the first fetch
    // returns 20.0 degrees Celsius, the second one fails.
    let mut context = RequestContext::new(MetricRegistry::new());
    let mut sampler = Sampler::new("TEST1".to_string(), 1);
    let degrees: f64 = 20.0;
    let temperature = (degrees * 1000.0).round() as i64;

    assert_eq!(sampler.on_wake(false), Wake::Fetch);
    let first = sampler.on_fetched(
        &mut context.registry,
        Ok(seen_at(sampler.station().clone().as_str(), [temperature, 0, 0, 0, 0])),
    );
    assert_eq!(first, TickOutcome::Updated);

    assert_eq!(sampler.on_wake(false), Wake::Fetch);
    let second = sampler.on_fetched(
        &mut context.registry,
        Err(failure(FetchErrorKind::Network, "timed out")),
    );
    assert_eq!(second, TickOutcome::Unchanged);

    let response = serve(&context, "GET", "/metrics");
    assert_eq!(response.status, 200);
    let body = String::from_utf8(response.body).unwrap();
    assert!(body.contains(
        "nws_temperature_thousandths{station=\"TEST1\",unit=\"wmoUnit:degC\"} 20000\n"
    ));
}
