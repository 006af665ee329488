//! The exposition endpoint: from a request to the response that answers it.
//!
//! A request for the metrics copies the registry's families out first
//! (`text_metrics`) and renders them afterwards (`GatheredMetrics`), so that
//! rendering works on a private copy. The text of a family is written by the
//! `prometheus` crate; everything around that call is decided here.

use crate::observation::{ObservationView, Quantity};
use crate::registry::{families_of, FamilyView, MetricFamily, MetricRegistry, RegistrySnapshot};
use crate::text::same_text;
use vstd::prelude::*;

verus! {

/// The error type of the `prometheus` crate. Nothing is known of a value of
/// it but what `describe` returns.
#[verifier::external_type_specification]
#[verifier::external_body]
pub struct ExEncoderError(prometheus::Error);

/// Whether `c` may start a metric name (`colon` set) or a label name.
pub open spec fn is_name_letter(c: char, colon: bool) -> bool {
    ('a' <= c && c <= 'z') || ('A' <= c && c <= 'Z') || c == '_' || (colon && c == ':')
}

/// Whether `text` is a name that the `prometheus` crate accepts: for a
/// metric (`colon` set) a letter, `_` or `:` followed by letters, digits, `_`
/// and `:`; for a label the same without `:`.
pub open spec fn is_identifier(text: Seq<char>, colon: bool) -> bool {
    &&& text.len() > 0
    &&& is_name_letter(text[0], colon)
    &&& forall|i: int|
        1 <= i < text.len() ==> is_name_letter(#[trigger] text[i], colon) || ('0' <= text[i]
            && text[i] <= '9')
}

/// The gauges that the `prometheus` crate accepts.
pub open spec fn is_gauge(
    name: Seq<char>,
    help: Seq<char>,
    first_label: Seq<char>,
    second_label: Seq<char>,
) -> bool {
    &&& help.len() > 0
    &&& is_identifier(name, true)
    &&& is_identifier(first_label, false)
    &&& is_identifier(second_label, false)
}

/// The text exposition of one gauge with two constant labels, as
/// `prometheus::TextEncoder` writes it. It says nothing of a gauge that the
/// crate refuses: see `is_gauge`.
pub uninterp spec fn gauge_text(
    name: Seq<char>,
    help: Seq<char>,
    first_label: Seq<char>,
    first_value: Seq<char>,
    second_label: Seq<char>,
    second_value: Seq<char>,
    value: i64,
) -> Seq<u8>;

/// Builds a `prometheus::IntGauge` from `prometheus::Opts` with the given
/// name, help and two constant labels, sets it to `value`, collects its one
/// metric family and encodes that with `prometheus::TextEncoder::encode` into
/// a fresh buffer.
///
/// Not proved, and taken from the crate's source: that the outcome depends
/// on the arguments alone, which is what `gauge_text` stands for; and that
/// the call succeeds exactly on the gauges of `is_gauge`. The crate refuses a
/// gauge with an empty help text, with a name that is no metric name or with
/// a label name that is no label name, and refuses nothing else; encoding one
/// collected gauge into a vector does not fail.
#[verifier::external_body]
fn encode_gauge(
    name: &str,
    help: &str,
    first_label: &str,
    first_value: &str,
    second_label: &str,
    second_value: &str,
    value: i64,
) -> (r: Result<Vec<u8>, prometheus::Error>)
    ensures
        r is Ok <==> is_gauge(name@, help@, first_label@, second_label@),
        r matches Ok(text) ==> text@ == gauge_text(
            name@,
            help@,
            first_label@,
            first_value@,
            second_label@,
            second_value@,
            value,
        ),
{
    let opts = prometheus::Opts::new(name, help)
        .const_label(first_label, first_value)
        .const_label(second_label, second_value);
    let gauge = prometheus::IntGauge::with_opts(opts)?;
    gauge.set(value);
    let families = prometheus::core::Collector::collect(&gauge);
    let mut text = Vec::new();
    prometheus::Encoder::encode(&prometheus::TextEncoder::new(), &families, &mut text)?;
    Ok(text)
}

/// The message of a `prometheus::Error`, as its `Display` writes it. Nothing
/// is claimed of the message.
#[verifier::external_body]
fn describe(error: &prometheus::Error) -> (r: String) {
    error.to_string()
}

/// The content type of the text exposition format: the crate's constant
/// `prometheus::TEXT_FORMAT`, whose value is the literal stated here.
#[verifier::external_body]
fn text_format() -> (r: &'static str)
    ensures
        r@ == "text/plain; version=0.0.4"@,
{
    prometheus::TEXT_FORMAT
}

/// The text exposition of one family: a gauge labelled with its station and
/// its unit.
pub open spec fn family_text(family: FamilyView) -> Seq<u8> {
    gauge_text(
        family.name(),
        family.help(),
        "station"@,
        family.station,
        "unit"@,
        family.unit().spec_code(),
        family.value,
    )
}

/// Whether the encoder accepts the gauge that publishes `family`.
pub open spec fn family_is_gauge(family: FamilyView) -> bool {
    is_gauge(family.name(), family.help(), "station"@, "unit"@)
}

/// The text exposition of `families`: the texts of the families one after
/// another.
pub open spec fn exposition_text(families: Seq<FamilyView>) -> Seq<u8>
    decreases families.len(),
{
    if families.len() == 0 {
        Seq::empty()
    } else {
        exposition_text(families.drop_last()) + family_text(families.last())
    }
}

/// The encoder accepts every family: the names, help texts and labels that
/// a registry publishes are ones that it takes.
pub proof fn lemma_every_family_is_gauge(family: FamilyView)
    ensures
        family_is_gauge(family),
{
    reveal_strlit("nws_temperature_thousandths");
    reveal_strlit("nws_relative_humidity_thousandths");
    reveal_strlit("nws_wind_speed_thousandths");
    reveal_strlit("nws_wind_direction_thousandths");
    reveal_strlit("nws_barometric_pressure_thousandths");
    reveal_strlit("Air temperature, in thousandths of the unit");
    reveal_strlit("Relative humidity, in thousandths of the unit");
    reveal_strlit("Wind speed, in thousandths of the unit");
    reveal_strlit("Wind direction, in thousandths of the unit");
    reveal_strlit("Barometric pressure, in thousandths of the unit");
    reveal_strlit("station");
    reveal_strlit("unit");
}

/// What the encoder said of a family that it would not render.
#[derive(Debug, PartialEq, Eq)]
pub struct RenderError {
    /// Position of the family in the snapshot.
    pub index: usize,
    /// The quantity that the family publishes.
    pub quantity: Quantity,
    /// The encoder's message.
    pub message: String,
}

/// Renders one family. The encoder accepts every family, so this succeeds.
pub fn encode_family(family: &MetricFamily) -> (r: Result<Vec<u8>, String>)
    ensures
        r matches Ok(text) && text@ == family_text(family@),
{
    proof {
        lemma_every_family_is_gauge(family@);
    }
    match encode_gauge(
        family.name(),
        family.help(),
        "station",
        family.station().as_str(),
        "unit",
        family.unit().code(),
        family.value(),
    ) {
        Ok(text) => Ok(text),
        Err(error) => Err(describe(&error)),
    }
}

/// Renders the families of `snapshot` in their order. The encoder's refusal
/// of a family would end the rendering with that family's error; it accepts
/// every family, so the text of the whole snapshot comes back.
pub fn render(snapshot: &RegistrySnapshot) -> (r: Result<Vec<u8>, RenderError>)
    ensures
        r matches Ok(body) && body@ == exposition_text(snapshot@),
{
    let mut body: Vec<u8> = Vec::new();
    let count = snapshot.len();
    let mut i: usize = 0;
    while i < count
        invariant
            i <= count,
            count == snapshot@.len(),
            body@ == exposition_text(snapshot@.take(i as int)),
        decreases count - i,
    {
        let family = snapshot.family(i);
        proof {
            let next = snapshot@.take(i + 1);
            assert(next.drop_last() =~= snapshot@.take(i as int));
            assert(next.last() == snapshot@[i as int]);
        }
        match encode_family(family) {
            Ok(text) => {
                let mut text = text;
                body.append(&mut text);
            },
            Err(message) => {
                return Err(RenderError { index: i, quantity: family.quantity(), message });
            },
        }
        i = i + 1;
    }
    proof {
        assert(snapshot@.take(count as int) =~= snapshot@);
    }
    Ok(body)
}

/// A response as the endpoint hands it to the server.
#[derive(Debug, PartialEq, Eq)]
pub struct HttpResponse {
    pub status: u16,
    pub content_type: Option<String>,
    pub body: Vec<u8>,
}

/// A response as contracts see it.
pub struct ResponseView {
    pub status: u16,
    pub content_type: Option<Seq<char>>,
    pub body: Seq<u8>,
}

impl View for HttpResponse {
    type V = ResponseView;

    open spec fn view(&self) -> ResponseView {
        ResponseView {
            status: self.status,
            content_type: match self.content_type {
                Some(text) => Some(text@),
                None => None,
            },
            body: self.body@,
        }
    }
}

/// The response that carries `text`: the rendered metrics with status 200
/// and the content type of the text exposition format, or, where rendering
/// failed, status 500 without a body.
pub open spec fn response_of(text: Option<Seq<u8>>) -> ResponseView {
    match text {
        Some(body) => ResponseView {
            status: 200,
            content_type: Some("text/plain; version=0.0.4"@),
            body,
        },
        None => ResponseView { status: 500, content_type: None, body: Seq::empty() },
    }
}

/// The text that a rendering outcome carries.
pub open spec fn rendered_text(outcome: Result<Vec<u8>, RenderError>) -> Option<Seq<u8>> {
    match outcome {
        Ok(body) => Some(body@),
        Err(_) => None,
    }
}

/// Turns the outcome of rendering into the response to send.
pub fn response_for(outcome: Result<Vec<u8>, RenderError>) -> (r: HttpResponse)
    ensures
        r@ == response_of(rendered_text(outcome)),
{
    match outcome {
        Ok(body) => HttpResponse {
            status: 200,
            content_type: Some(text_format().to_owned()),
            body,
        },
        Err(_) => HttpResponse { status: 500, content_type: None, body: Vec::new() },
    }
}

/// Metric families gathered for one request, ready to be rendered.
#[derive(Debug, PartialEq, Eq)]
pub struct GatheredMetrics {
    metrics: RegistrySnapshot,
}

impl View for GatheredMetrics {
    type V = Seq<FamilyView>;

    closed spec fn view(&self) -> Seq<FamilyView> {
        self.metrics@
    }
}

impl GatheredMetrics {
    /// The families of `metrics`, gathered for one request.
    pub fn new(metrics: RegistrySnapshot) -> (r: GatheredMetrics)
        ensures
            r@ == metrics@,
    {
        GatheredMetrics { metrics }
    }

    /// Renders the gathered families.
    pub fn encode(&self) -> (r: Result<Vec<u8>, RenderError>)
        ensures
            r matches Ok(body) && body@ == exposition_text(self@),
    {
        render(&self.metrics)
    }

    /// The response that publishes the gathered families.
    pub fn into_response(self) -> (r: HttpResponse)
        ensures
            r@ == response_of(Some(exposition_text(self@))),
    {
        response_for(render(&self.metrics))
    }
}

/// Why a request is not answered with the metrics.
#[derive(Clone, Copy, Debug, PartialEq, Eq, Structural)]
pub enum Rejection {
    /// The path is not the metrics path.
    NotFound,
    /// The path is the metrics path, the method is not `GET`.
    MethodNotAllowed,
    /// The request was not admitted: the endpoint is not serving.
    Unavailable,
}

/// How an admitted request is routed: `None` where it asks for the metrics.
pub open spec fn rejection_of(method: Seq<char>, path: Seq<char>) -> Option<Rejection> {
    if path != "/metrics"@ {
        Some(Rejection::NotFound)
    } else if method != "GET"@ {
        Some(Rejection::MethodNotAllowed)
    } else {
        None
    }
}

/// The response that answers a rejected request: no body, and the status of
/// the rejection.
pub open spec fn rejection_view(rejection: Rejection) -> ResponseView {
    ResponseView {
        status: match rejection {
            Rejection::NotFound => 404,
            Rejection::MethodNotAllowed => 405,
            Rejection::Unavailable => 503,
        },
        content_type: None,
        body: Seq::empty(),
    }
}

/// The response that answers a rejected request.
pub fn rejection_response(rejection: Rejection) -> (r: HttpResponse)
    ensures
        r@ == rejection_view(rejection),
{
    let status: u16 = match rejection {
        Rejection::NotFound => 404,
        Rejection::MethodNotAllowed => 405,
        Rejection::Unavailable => 503,
    };
    HttpResponse { status, content_type: None, body: Vec::new() }
}

/// State shared between all HTTP requests.
#[derive(Debug, PartialEq, Eq)]
pub struct RequestContext {
    pub registry: MetricRegistry,
}

impl View for RequestContext {
    type V = Option<ObservationView>;

    open spec fn view(&self) -> Option<ObservationView> {
        self.registry@
    }
}

impl RequestContext {
    /// The context that serves `registry`.
    pub fn new(registry: MetricRegistry) -> (r: RequestContext)
        ensures
            r.registry == registry,
    {
        RequestContext { registry }
    }
}

/// Routes one request: a `GET` of `/metrics` gathers the families that the
/// registry publishes now; any other request is rejected and gathers nothing.
pub fn text_metrics(context: &RequestContext, method: &str, path: &str) -> (r: Result<
    GatheredMetrics,
    Rejection,
>)
    ensures
        match r {
            Ok(gathered) => {
                &&& rejection_of(method@, path@) is None
                &&& gathered@ == families_of(context@)
            },
            Err(rejection) => rejection_of(method@, path@) == Some(rejection),
        },
{
    if !same_text(path, "/metrics") {
        Err(Rejection::NotFound)
    } else if !same_text(method, "GET") {
        Err(Rejection::MethodNotAllowed)
    } else {
        Ok(GatheredMetrics::new(context.registry.snapshot()))
    }
}

/// The response that a request gets from a registry in state `current`.
pub open spec fn served(
    current: Option<ObservationView>,
    method: Seq<char>,
    path: Seq<char>,
) -> ResponseView {
    match rejection_of(method, path) {
        Some(rejection) => rejection_view(rejection),
        None => response_of(Some(exposition_text(families_of(current)))),
    }
}

/// Answers one request from the registry as it is now.
pub fn serve(context: &RequestContext, method: &str, path: &str) -> (r: HttpResponse)
    ensures
        r@ == served(context@, method@, path@),
{
    match text_metrics(context, method, path) {
        Ok(gathered) => gathered.into_response(),
        Err(rejection) => rejection_response(rejection),
    }
}

/// Before the first observation a `GET` of `/metrics` is answered with status
/// 200, the content type of the text exposition format and an empty body.
pub proof fn lemma_no_data_is_served()
    ensures
        served(None, "GET"@, "/metrics"@) == (ResponseView {
            status: 200,
            content_type: Some("text/plain; version=0.0.4"@),
            body: Seq::empty(),
        }),
{
    assert(families_of(None).len() == 0);
}

/// Whatever the registry holds, a `GET` of `/metrics` is answered with status
/// 200 and the text of the families that the registry publishes.
pub proof fn lemma_metrics_are_served(current: Option<ObservationView>)
    ensures
        served(current, "GET"@, "/metrics"@) == (ResponseView {
            status: 200,
            content_type: Some("text/plain; version=0.0.4"@),
            body: exposition_text(families_of(current)),
        }),
{
}

} // verus!
