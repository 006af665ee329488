use nws_exporter::exposition::{
    encode_family, rejection_response, render, response_for, serve, text_metrics,
    GatheredMetrics, HttpResponse, Rejection, RenderError, RequestContext,
};
use nws_exporter::observation::{Measurement, Observation, Quantity, Unit};
use nws_exporter::registry::{MetricFamily, MetricRegistry, RegistrySnapshot};
use prometheus::Encoder;

fn seen_at(station: &str, values: [i64; 5]) -> Observation {
    Observation::new(
        station.to_string(),
        Measurement::new(values[0], Unit::DegreesCelsius),
        Measurement::new(values[1], Unit::Percent),
        Measurement::new(values[2], Unit::KilometersPerHour),
        Measurement::new(values[3], Unit::DegreesAngle),
        Measurement::new(values[4], Unit::Pascals),
    )
    .unwrap()
}

fn context_with(station: &str, values: [i64; 5]) -> RequestContext {
    let mut registry = MetricRegistry::new();
    registry.update(seen_at(station, values));
    RequestContext::new(registry)
}

const KBOS_TEXT: &str = "\
# HELP nws_temperature_thousandths Air temperature, in thousandths of the unit
# TYPE nws_temperature_thousandths gauge
nws_temperature_thousandths{station=\"KBOS\",unit=\"wmoUnit:degC\"} 20000
# HELP nws_relative_humidity_thousandths Relative humidity, in thousandths of the unit
# TYPE nws_relative_humidity_thousandths gauge
nws_relative_humidity_thousandths{station=\"KBOS\",unit=\"wmoUnit:percent\"} 56500
# HELP nws_wind_speed_thousandths Wind speed, in thousandths of the unit
# TYPE nws_wind_speed_thousandths gauge
nws_wind_speed_thousandths{station=\"KBOS\",unit=\"wmoUnit:km_h-1\"} 14760
# HELP nws_wind_direction_thousandths Wind direction, in thousandths of the unit
# TYPE nws_wind_direction_thousandths gauge
nws_wind_direction_thousandths{station=\"KBOS\",unit=\"wmoUnit:degree_(angle)\"} 250000
# HELP nws_barometric_pressure_thousandths Barometric pressure, in thousandths of the unit
# TYPE nws_barometric_pressure_thousandths gauge
nws_barometric_pressure_thousandths{station=\"KBOS\",unit=\"wmoUnit:Pa\"} 101320000
";

#[test]
fn family_is_rendered_as_a_labelled_gauge() {
    let family = MetricFamily::new(Quantity::Temperature, "TEST1".to_string(), 20_000);
    let text = encode_family(&family).unwrap();
    assert_eq!(
        String::from_utf8(text).unwrap(),
        "# HELP nws_temperature_thousandths Air temperature, in thousandths of the unit\n\
         # TYPE nws_temperature_thousandths gauge\n\
         nws_temperature_thousandths{station=\"TEST1\",unit=\"wmoUnit:degC\"} 20000\n"
    );
}

#[test]
fn family_text_is_what_the_encoder_writes_for_the_gauge() {
    let gauge = prometheus::IntGauge::with_opts(
        prometheus::Opts::new(
            "nws_wind_speed_thousandths",
            "Wind speed, in thousandths of the unit",
        )
        .const_label("station", "KSEA")
        .const_label("unit", "wmoUnit:km_h-1"),
    )
    .unwrap();
    gauge.set(-1_500);
    let mut expected = Vec::new();
    prometheus::TextEncoder::new()
        .encode(&prometheus::core::Collector::collect(&gauge), &mut expected)
        .unwrap();

    let family = MetricFamily::new(Quantity::WindSpeed, "KSEA".to_string(), -1_500);
    assert_eq!(encode_family(&family).unwrap(), expected);
}

#[test]
fn station_is_escaped_in_its_label() {
    let family = MetricFamily::new(Quantity::Temperature, "a\"b\\c\nd".to_string(), 1);
    let text = String::from_utf8(encode_family(&family).unwrap()).unwrap();
    assert!(text.ends_with(
        "nws_temperature_thousandths{station=\"a\\\"b\\\\c\\nd\",unit=\"wmoUnit:degC\"} 1\n"
    ));
}

#[test]
fn extreme_values_are_rendered() {
    for value in [i64::MIN, -1, 0, 1, i64::MAX] {
        let family = MetricFamily::new(Quantity::BarometricPressure, "KBOS".to_string(), value);
        let text = String::from_utf8(encode_family(&family).unwrap()).unwrap();
        assert!(text.starts_with("# HELP nws_barometric_pressure_thousandths "));
        assert!(text.ends_with('\n'));
    }
    let zero = MetricFamily::new(Quantity::BarometricPressure, "KBOS".to_string(), 0);
    let text = String::from_utf8(encode_family(&zero).unwrap()).unwrap();
    assert!(text.ends_with("{station=\"KBOS\",unit=\"wmoUnit:Pa\"} 0\n"));
}

#[test]
fn empty_snapshot_renders_to_nothing() {
    let body = render(&RegistrySnapshot::new(Vec::new())).unwrap();
    assert!(body.is_empty());
}

#[test]
fn snapshot_renders_its_families_one_after_another() {
    let context = context_with("KBOS", [20_000, 56_500, 14_760, 250_000, 101_320_000]);
    let snapshot = context.registry.snapshot();
    let body = render(&snapshot).unwrap();
    assert_eq!(String::from_utf8(body.clone()).unwrap(), KBOS_TEXT);

    let mut joined = Vec::new();
    for index in 0..snapshot.len() {
        joined.extend(encode_family(snapshot.family(index)).unwrap());
    }
    assert_eq!(body, joined);
}

#[test]
fn render_follows_the_order_of_the_snapshot() {
    let first = MetricFamily::new(Quantity::WindSpeed, "X".to_string(), 3);
    let second = MetricFamily::new(Quantity::Temperature, "Y".to_string(), 4);
    let mut expected = encode_family(&first).unwrap();
    expected.extend(encode_family(&second).unwrap());
    let snapshot = RegistrySnapshot::new(vec![first, second]);
    assert_eq!(render(&snapshot).unwrap(), expected);
}

#[test]
fn rendered_text_gets_status_200_and_the_text_content_type() {
    let response = response_for(Ok(b"metric 1\n".to_vec()));
    assert_eq!(
        response,
        HttpResponse {
            status: 200,
            content_type: Some("text/plain; version=0.0.4".to_string()),
            body: b"metric 1\n".to_vec(),
        }
    );
    assert_eq!(response.content_type.as_deref(), Some(prometheus::TEXT_FORMAT));
}

#[test]
fn rendering_failure_gets_status_500_without_body() {
    let response = response_for(Err(RenderError {
        index: 2,
        quantity: Quantity::WindSpeed,
        message: "MetricFamily has no metrics".to_string(),
    }));
    assert_eq!(
        response,
        HttpResponse { status: 500, content_type: None, body: Vec::new() }
    );
}

#[test]
fn rejections_have_their_status_and_no_body() {
    assert_eq!(
        rejection_response(Rejection::NotFound),
        HttpResponse { status: 404, content_type: None, body: Vec::new() }
    );
    assert_eq!(
        rejection_response(Rejection::MethodNotAllowed),
        HttpResponse { status: 405, content_type: None, body: Vec::new() }
    );
    assert_eq!(
        rejection_response(Rejection::Unavailable),
        HttpResponse { status: 503, content_type: None, body: Vec::new() }
    );
}

#[test]
fn get_metrics_gathers_the_current_families() {
    let context = context_with("KBOS", [1, 2, 3, 4, 5]);
    let gathered = text_metrics(&context, "GET", "/metrics").unwrap();
    assert_eq!(gathered, GatheredMetrics::new(context.registry.snapshot()));
}

#[test]
fn other_paths_are_not_found() {
    let context = context_with("KBOS", [1, 2, 3, 4, 5]);
    for path in ["/", "", "/metric", "/metrics/", "/metrics/x", "metrics", "/Metrics", "/health"] {
        assert_eq!(text_metrics(&context, "GET", path), Err(Rejection::NotFound));
        assert_eq!(text_metrics(&context, "POST", path), Err(Rejection::NotFound));
        assert_eq!(serve(&context, "GET", path).status, 404);
    }
}

#[test]
fn other_methods_are_not_allowed() {
    let context = context_with("KBOS", [1, 2, 3, 4, 5]);
    for method in ["POST", "PUT", "DELETE", "HEAD", "get", "", "GET "] {
        assert_eq!(
            text_metrics(&context, method, "/metrics"),
            Err(Rejection::MethodNotAllowed)
        );
        let response = serve(&context, method, "/metrics");
        assert_eq!(
            response,
            HttpResponse { status: 405, content_type: None, body: Vec::new() }
        );
    }
}

#[test]
fn get_metrics_before_any_observation_is_an_empty_200() {
    let context = RequestContext::new(MetricRegistry::new());
    let response = serve(&context, "GET", "/metrics");
    assert_eq!(
        response,
        HttpResponse {
            status: 200,
            content_type: Some(prometheus::TEXT_FORMAT.to_string()),
            body: Vec::new(),
        }
    );
}

#[test]
fn get_metrics_serves_the_rendered_registry() {
    let context = context_with("KBOS", [20_000, 56_500, 14_760, 250_000, 101_320_000]);
    let response = serve(&context, "GET", "/metrics");
    assert_eq!(response.status, 200);
    assert_eq!(response.content_type.as_deref(), Some("text/plain; version=0.0.4"));
    assert_eq!(String::from_utf8(response.body).unwrap(), KBOS_TEXT);
}

#[test]
fn gathered_metrics_answer_like_serve() {
    let context = context_with("KSEA", [-1, 0, 1, 2, 3]);
    let gathered = text_metrics(&context, "GET", "/metrics").unwrap();
    let encoded = gathered.encode().unwrap();
    let response = gathered.into_response();
    assert_eq!(response.body, encoded);
    assert_eq!(response, serve(&context, "GET", "/metrics"));
}

#[test]
fn response_never_mixes_two_observations() {
    let mut context = context_with("OLD", [1, 1, 1, 1, 1]);
    let gathered = text_metrics(&context, "GET", "/metrics").unwrap();
    context.registry.update(seen_at("NEW", [2, 2, 2, 2, 2]));
    let old = String::from_utf8(gathered.into_response().body).unwrap();
    let new = String::from_utf8(serve(&context, "GET", "/metrics").body).unwrap();
    assert_eq!(old.matches("station=\"OLD\"").count(), 5);
    assert_eq!(old.matches("station=\"NEW\"").count(), 0);
    assert_eq!(old.matches("} 1\n").count(), 5);
    assert_eq!(new.matches("station=\"NEW\"").count(), 5);
    assert_eq!(new.matches("station=\"OLD\"").count(), 0);
    assert_eq!(new.matches("} 2\n").count(), 5);
}
