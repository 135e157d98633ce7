use vstd::prelude::*;

use crate::config::AppConfig;
use crate::error::Error;

verus! {

/// The address of the upstream forecast for `city`, authenticated with `api_key`.
/// Both are placed in the query as they are, without escaping.
pub open spec fn weather_url(city: Seq<char>, api_key: Seq<char>) -> Seq<char> {
    "https://api.openweathermap.org/data/2.5/weather?q="@ + city + "&appid="@ + api_key
}

/// Builds the address of the upstream forecast for `city`.
pub fn build_weather_url(city: &str, api_key: &str) -> (url: String)
    ensures
        url@ == weather_url(city@, api_key@),
{
    String::from_str("https://api.openweathermap.org/data/2.5/weather?q=").concat(city).concat(
        "&appid=",
    ).concat(api_key)
}

/// The three ways in which a forecast request can fail.
#[derive(Clone, Copy, Debug, PartialEq, Eq, Structural)]
pub enum WeatherFailure {
    /// No configuration could be had.
    ConfigUnavailable,
    /// The upstream call failed.
    UpstreamUnavailable,
    /// The upstream answer is not JSON.
    InvalidJson,
}

impl WeatherFailure {
    pub open spec fn message_spec(self) -> Seq<char> {
        match self {
            WeatherFailure::ConfigUnavailable => "Failed to get config"@,
            WeatherFailure::UpstreamUnavailable => "Failed to call OpenWeather API"@,
            WeatherFailure::InvalidJson => "Failed to parse JSON"@,
        }
    }

    /// The fixed body sent to the caller for this failure.
    pub fn message(self) -> (r: &'static str)
        ensures
            r@ == self.message_spec(),
    {
        match self {
            WeatherFailure::ConfigUnavailable => "Failed to get config",
            WeatherFailure::UpstreamUnavailable => "Failed to call OpenWeather API",
            WeatherFailure::InvalidJson => "Failed to parse JSON",
        }
    }
}

/// The answer to a forecast request.
pub enum WeatherReply {
    /// The upstream JSON, passed on with status 200.
    Forecast { body: String },
    /// A fixed message, with status 500.
    Failure { failure: WeatherFailure },
}

impl View for WeatherReply {
    /// The HTTP status and the body text of the answer.
    type V = (u16, Seq<char>);

    open spec fn view(&self) -> (u16, Seq<char>) {
        match self {
            WeatherReply::Forecast { body } => (200u16, body@),
            WeatherReply::Failure { failure } => (500u16, failure.message_spec()),
        }
    }
}

impl WeatherReply {
    /// The HTTP status of the answer.
    pub fn status(&self) -> (r: u16)
        ensures
            r == self@.0,
    {
        match self {
            WeatherReply::Forecast { .. } => 200,
            WeatherReply::Failure { .. } => 500,
        }
    }

    /// The body of the answer.
    pub fn body(&self) -> (r: String)
        ensures
            r@ == self@.1,
    {
        match self {
            WeatherReply::Forecast { body } => body.clone(),
            WeatherReply::Failure { failure } => String::from_str(failure.message()),
        }
    }

    /// Whether the body is JSON (else it is plain text).
    pub fn is_json(&self) -> (r: bool)
        ensures
            r == (self is Forecast),
    {
        match self {
            WeatherReply::Forecast { .. } => true,
            WeatherReply::Failure { .. } => false,
        }
    }
}

/// What a forecast request does after its configuration has been resolved.
pub enum WeatherStep {
    /// Ask the upstream service at this address.
    Fetch { url: String },
    /// Answer at once, without calling upstream.
    Respond { reply: WeatherReply },
}

/// The model of a step: the address to fetch, or the answer to give.
pub enum StepView {
    Fetch(Seq<char>),
    Respond((u16, Seq<char>)),
}

impl View for WeatherStep {
    type V = StepView;

    open spec fn view(&self) -> StepView {
        match self {
            WeatherStep::Fetch { url } => StepView::Fetch(url@),
            WeatherStep::Respond { reply } => StepView::Respond(reply@),
        }
    }
}

/// The key that a resolved configuration holds, or `None` where it could not be had.
pub open spec fn config_key(config: Result<AppConfig, Error>) -> Option<Seq<char>> {
    match config {
        Ok(c) => Some(c.openweather_api_key@),
        Err(_) => None,
    }
}

/// The first step of a forecast request for `city`, given the configured key, if any.
pub open spec fn start_spec(city: Seq<char>, api_key: Option<Seq<char>>) -> StepView {
    match api_key {
        Some(k) => StepView::Fetch(weather_url(city, k)),
        None => StepView::Respond((500u16, WeatherFailure::ConfigUnavailable.message_spec())),
    }
}

/// Starts a forecast request for `city` once the configuration has been resolved.
pub fn start_weather(city: &str, config: Result<AppConfig, Error>) -> (step: WeatherStep)
    ensures
        step@ == start_spec(city@, config_key(config)),
{
    match config {
        Ok(c) => WeatherStep::Fetch { url: build_weather_url(city, c.openweather_api_key.as_str()) },
        Err(_) => WeatherStep::Respond {
            reply: WeatherReply::Failure { failure: WeatherFailure::ConfigUnavailable },
        },
    }
}

/// The compact JSON text that serde_json writes for `text` once parsed into a
/// `serde_json::Value`, or `None` where `text` is not JSON.
pub uninterp spec fn json_reencoded(text: Seq<char>) -> Option<Seq<char>>;

/// Relies on `serde_json::from_str` into `serde_json::Value` to accept or refuse
/// the text as JSON, and on `Value`'s `Display` to write the parsed value back.
#[verifier::external_body]
fn reencode_json(text: &str) -> (r: Option<String>)
    ensures
        r is Some <==> json_reencoded(text@) is Some,
        r is Some ==> r->0@ == json_reencoded(text@)->0,
{
    match serde_json::from_str::<serde_json::Value>(text) {
        Ok(value) => Some(value.to_string()),
        Err(_) => None,
    }
}

/// The answer for an upstream body whose JSON reading is `encoded`.
pub open spec fn json_reply_spec(encoded: Option<Seq<char>>) -> (u16, Seq<char>) {
    match encoded {
        Some(t) => (200u16, t),
        None => (500u16, WeatherFailure::InvalidJson.message_spec()),
    }
}

/// Answers with the JSON read from the upstream body, or with the parse failure.
pub fn reply_for_json(encoded: Option<String>) -> (reply: WeatherReply)
    ensures
        match encoded {
            Some(t) => reply@ == json_reply_spec(Some(t@)),
            None => reply@ == json_reply_spec(None),
        },
{
    match encoded {
        Some(body) => WeatherReply::Forecast { body },
        None => WeatherReply::Failure { failure: WeatherFailure::InvalidJson },
    }
}

/// The answer once upstream has answered with `fetched` (`None` for a network error).
pub open spec fn finish_spec(fetched: Option<Seq<char>>) -> (u16, Seq<char>) {
    match fetched {
        Some(body) => json_reply_spec(json_reencoded(body)),
        None => (500u16, WeatherFailure::UpstreamUnavailable.message_spec()),
    }
}

/// The body that an upstream call returned, or `None` where it failed.
pub open spec fn fetched_body(fetched: Result<String, Error>) -> Option<Seq<char>> {
    match fetched {
        Ok(body) => Some(body@),
        Err(_) => None,
    }
}

/// Finishes a forecast request with what the upstream call returned.
pub fn finish_weather(fetched: Result<String, Error>) -> (reply: WeatherReply)
    ensures
        reply@ == finish_spec(fetched_body(fetched)),
{
    match fetched {
        Ok(body) => reply_for_json(reencode_json(body.as_str())),
        Err(_) => WeatherReply::Failure { failure: WeatherFailure::UpstreamUnavailable },
    }
}

/// The answer to a forecast request for `city`, given the configured key, if
/// any, and an upstream service that returns `upstream(url)` for each address
/// (`None` for a network error).
pub open spec fn weather_exchange(
    city: Seq<char>,
    api_key: Option<Seq<char>>,
    upstream: spec_fn(Seq<char>) -> Option<Seq<char>>,
) -> (u16, Seq<char>) {
    match start_spec(city, api_key) {
        StepView::Fetch(url) => finish_spec(upstream(url)),
        StepView::Respond(reply) => reply,
    }
}

/// For every city, an upstream answer that is JSON is passed on with status 200,
/// as the JSON text of the parsed value.
pub proof fn lemma_json_passes_through(
    city: Seq<char>,
    api_key: Seq<char>,
    upstream: spec_fn(Seq<char>) -> Option<Seq<char>>,
    body: Seq<char>,
)
    requires
        upstream(weather_url(city, api_key)) == Some(body),
        json_reencoded(body) is Some,
    ensures
        weather_exchange(city, Some(api_key), upstream) == (200u16, json_reencoded(body)->0),
{
}

/// For every city, a failed upstream call is answered with status 500 and
/// "Failed to call OpenWeather API".
pub proof fn lemma_network_error_reply(
    city: Seq<char>,
    api_key: Seq<char>,
    upstream: spec_fn(Seq<char>) -> Option<Seq<char>>,
)
    requires
        upstream(weather_url(city, api_key)) is None,
    ensures
        weather_exchange(city, Some(api_key), upstream) == (
            500u16,
            "Failed to call OpenWeather API"@,
        ),
{
}

/// An upstream answer that is not JSON is answered with status 500 and
/// "Failed to parse JSON".
pub proof fn lemma_malformed_json_reply(
    city: Seq<char>,
    api_key: Seq<char>,
    upstream: spec_fn(Seq<char>) -> Option<Seq<char>>,
    body: Seq<char>,
)
    requires
        upstream(weather_url(city, api_key)) == Some(body),
        json_reencoded(body) is None,
    ensures
        weather_exchange(city, Some(api_key), upstream) == (500u16, "Failed to parse JSON"@),
{
}

/// Without configuration a request is answered with status 500 and "Failed to
/// get config", and upstream is never asked: the first step is no fetch.
pub proof fn lemma_missing_config_reply(
    city: Seq<char>,
    upstream: spec_fn(Seq<char>) -> Option<Seq<char>>,
)
    ensures
        start_spec(city, None) !is Fetch,
        weather_exchange(city, None, upstream) == (500u16, "Failed to get config"@),
{
}

} // verus!
