//! The "weather" endpoint.

use crate::payload::{bytes_view, payload_to_vec};
use bytes::Bytes;
use std::string::FromUtf8Error;
use vstd::prelude::*;
use vstd::string::StringExecFns;
use vstd::utf8::{decode_utf8, valid_utf8};

verus! {

#[verifier::external_type_specification]
#[verifier::external_body]
pub struct ExFromUtf8Error(std::string::FromUtf8Error);

/// Trusted: calls `String::from_utf8`, which turns a vector of bytes into the
/// string that they encode and fails where they are not valid UTF-8. Nothing
/// is claimed of the error.
#[verifier::external_body]
fn string_from_utf8(bytes: Vec<u8>) -> (decoded: Result<String, FromUtf8Error>)
    ensures
        decoded is Ok <==> valid_utf8(bytes@),
        decoded matches Ok(text) ==> text@ == decode_utf8(bytes@),
{
    String::from_utf8(bytes)
}

/// A request to the "weather" endpoint: the place whose weather is asked for,
/// as free text.
#[derive(Debug)]
pub struct WeatherRequest(String);

impl View for WeatherRequest {
    type V = Seq<char>;

    closed spec fn view(&self) -> Seq<char> {
        self.0@
    }
}

impl WeatherRequest {
    /// Decodes a request's payload, which is the place's name in UTF-8.
    pub fn try_from(payload: &Bytes) -> (decoded: Result<WeatherRequest, FromUtf8Error>)
        ensures
            decoded is Ok <==> valid_utf8(bytes_view(*payload)),
            decoded matches Ok(request) ==> request@ == decode_utf8(bytes_view(*payload)),
    {
        match string_from_utf8(payload_to_vec(payload)) {
            Ok(text) => Ok(WeatherRequest(text)),
            Err(error) => Err(error),
        }
    }

    /// The place that is asked for.
    pub fn place(&self) -> (place: &str)
        ensures
            place@ == self@,
    {
        self.0.as_str()
    }
}

/// A place on the map. Numbers are held as the text that they are written
/// out as.
#[derive(Debug, Clone, PartialEq, Eq)]
pub struct Location {
    pub lat: String,
    pub lon: String,
    pub elevation: Option<String>,
}

/// The units in which the forecast service states its measurements.
#[derive(Debug, Clone, PartialEq, Eq)]
pub struct OpenMeteoUnits {
    pub temperature: String,
    pub relative_humidity: String,
    pub precipitation: String,
    pub cloud_cover: String,
    pub surface_pressure: String,
    pub wind_speed: String,
    pub wind_direction: String,
}

/// The forecast service's current measurements, each as the text that its
/// number is written out as.
#[derive(Debug, Clone, PartialEq, Eq)]
pub struct OpenMeteoValues {
    pub temperature: String,
    pub relative_humidity: String,
    pub precipitation: String,
    pub cloud_cover: String,
    pub surface_pressure: String,
    pub wind_speed: String,
    pub wind_direction: String,
}

/// What the forecast service answers for one place.
#[derive(Debug, Clone, PartialEq, Eq)]
pub struct OpenMeteoResponse {
    pub latitude: String,
    pub longitude: String,
    pub elevation: String,
    pub units: OpenMeteoUnits,
    pub values: OpenMeteoValues,
}

/// The reply of the "weather" endpoint: where the weather was measured, and
/// each measurement with its unit.
#[derive(Debug, Clone, PartialEq, Eq)]
pub struct WeatherResponse {
    pub location: Location,
    pub temperature: String,
    pub relative_humidity: String,
    pub precipitation: String,
    pub cloud_cover: String,
    pub surface_pressure: String,
    pub wind_speed: String,
    pub wind_direction: String,
}

/// Whether `response` is the reply that belongs to the forecast `weather`: the
/// place is the forecast's, with its elevation, and every measurement is
/// followed by its unit.
pub open spec fn reports(response: WeatherResponse, weather: OpenMeteoResponse) -> bool {
    &&& response.location.lat@ == weather.latitude@
    &&& response.location.lon@ == weather.longitude@
    &&& response.location.elevation matches Some(elevation) && elevation@ == weather.elevation@
    &&& response.temperature@ == weather.values.temperature@ + weather.units.temperature@
    &&& response.relative_humidity@ == weather.values.relative_humidity@
        + weather.units.relative_humidity@
    &&& response.precipitation@ == weather.values.precipitation@ + weather.units.precipitation@
    &&& response.cloud_cover@ == weather.values.cloud_cover@ + weather.units.cloud_cover@
    &&& response.surface_pressure@ == weather.values.surface_pressure@
        + weather.units.surface_pressure@
    &&& response.wind_speed@ == weather.values.wind_speed@ + weather.units.wind_speed@
    &&& response.wind_direction@ == weather.values.wind_direction@
        + weather.units.wind_direction@
}

impl WeatherResponse {
    /// The reply for a forecast.
    pub fn from(value: OpenMeteoResponse) -> (response: WeatherResponse)
        ensures
            reports(response, value),
    {
        let OpenMeteoResponse { latitude, longitude, elevation, units, values } = value;
        WeatherResponse {
            location: Location { lat: latitude, lon: longitude, elevation: Some(elevation) },
            temperature: values.temperature.concat(units.temperature.as_str()),
            relative_humidity: values.relative_humidity.concat(units.relative_humidity.as_str()),
            precipitation: values.precipitation.concat(units.precipitation.as_str()),
            cloud_cover: values.cloud_cover.concat(units.cloud_cover.as_str()),
            surface_pressure: values.surface_pressure.concat(units.surface_pressure.as_str()),
            wind_speed: values.wind_speed.concat(units.wind_speed.as_str()),
            wind_direction: values.wind_direction.concat(units.wind_direction.as_str()),
        }
    }
}

/// Why a lookup failed, with the message of the request that failed.
#[derive(Debug, Clone, PartialEq, Eq)]
pub enum Error {
    /// The place could not be found on the map.
    FetchLocation(String),
    /// The forecast for the place could not be had.
    FetchWeather(String),
}

/// The text that an error is reported with.
pub open spec fn error_message(error: Error) -> Seq<char> {
    match error {
        Error::FetchLocation(detail) => "failed to geocode provided location: "@ + detail@,
        Error::FetchWeather(detail) => "failed to fetch weather information: "@ + detail@,
    }
}

impl Error {
    /// The text that the error is reported with.
    pub fn message(&self) -> (message: String)
        ensures
            message@ == error_message(*self),
    {
        match self {
            Error::FetchLocation(detail) => String::from_str(
                "failed to geocode provided location: ",
            ).concat(detail.as_str()),
            Error::FetchWeather(detail) => String::from_str(
                "failed to fetch weather information: ",
            ).concat(detail.as_str()),
        }
    }
}

/// A request to one of the two services that a lookup asks: where it goes and
/// what it carries.
#[derive(Debug, Clone, PartialEq, Eq)]
pub struct Query {
    pub url: String,
    pub headers: Vec<(String, String)>,
    pub parameters: Vec<(String, String)>,
}

/// The mathematical content of a [`Query`].
pub struct QueryView {
    pub url: Seq<char>,
    pub headers: Seq<(Seq<char>, Seq<char>)>,
    pub parameters: Seq<(Seq<char>, Seq<char>)>,
}

/// The texts of a list of pairs of strings.
pub open spec fn pairs_view(pairs: Seq<(String, String)>) -> Seq<(Seq<char>, Seq<char>)> {
    pairs.map_values(|pair: (String, String)| (pair.0@, pair.1@))
}

impl View for Query {
    type V = QueryView;

    open spec fn view(&self) -> QueryView {
        QueryView {
            url: self.url@,
            headers: pairs_view(self.headers@),
            parameters: pairs_view(self.parameters@),
        }
    }
}

/// The question to the map service: where is `place`?
pub open spec fn geocode_query(place: Seq<char>) -> QueryView {
    QueryView {
        url: "https://nominatim.openstreetmap.org/search"@,
        headers: seq![("Accept"@, "application/json"@)],
        parameters: seq![("q"@, place), ("format"@, "json"@)],
    }
}

/// The question to the forecast service: what is the weather at this
/// latitude and longitude right now?
pub open spec fn forecast_query(lat: Seq<char>, lon: Seq<char>) -> QueryView {
    QueryView {
        url: "https://api.open-meteo.com/v1/forecast"@,
        headers: Seq::empty(),
        parameters: seq![
            ("latitude"@, lat),
            ("longitude"@, lon),
            (
                "current"@,
                "temperature_2m,relative_humidity_2m,precipitation,cloud_cover,surface_pressure,wind_speed_10m,wind_direction_10m"@,
            ),
        ],
    }
}

/// How far a lookup has come.
#[derive(Debug, Clone, Copy, PartialEq, Eq, Structural)]
pub enum LookupState {
    /// The map service has been asked where the place is.
    Geocoding,
    /// The forecast service has been asked for the weather there.
    Forecasting,
    /// The lookup has succeeded or failed.
    Done,
}

/// What the driver reports to a lookup: the answer of the service that was
/// asked, or the message of the request's failure.
#[derive(Debug)]
pub enum LookupEvent {
    Located(Result<Vec<Location>, String>),
    Observed(Result<OpenMeteoResponse, String>),
}

/// What a lookup tells the driver to do next.
#[derive(Debug, PartialEq, Eq)]
pub enum LookupAction {
    /// Ask the forecast service this.
    Forecast(Query),
    /// The lookup succeeded with this reply.
    Succeed(WeatherResponse),
    /// The lookup failed with this error.
    Fail(Error),
    /// The event does not belong to the current state and was ignored.
    Rejected,
}

/// What a lookup fails with when the map service knows no place of the name
/// that was asked for.
pub open spec fn no_place_found() -> Seq<char> {
    "no location found"@
}

/// Whether a lookup in `state` answers `event` with `action` and goes on in
/// `next`. The map service's first place is the one whose weather is asked
/// for; where it found none, the lookup fails and no forecast is asked for.
pub open spec fn lookup_step(
    state: LookupState,
    event: LookupEvent,
    next: LookupState,
    action: LookupAction,
) -> bool {
    match (state, event) {
        (LookupState::Geocoding, LookupEvent::Located(Ok(locations))) => {
            if locations@.len() > 0 {
                &&& next == LookupState::Forecasting
                &&& action matches LookupAction::Forecast(query)
                &&& query@ == forecast_query(locations@[0].lat@, locations@[0].lon@)
            } else {
                &&& next == LookupState::Done
                &&& action matches LookupAction::Fail(Error::FetchLocation(message))
                &&& message@ == no_place_found()
            }
        },
        (LookupState::Geocoding, LookupEvent::Located(Err(detail))) => {
            &&& next == LookupState::Done
            &&& action matches LookupAction::Fail(Error::FetchLocation(message))
            &&& message@ == detail@
        },
        (LookupState::Forecasting, LookupEvent::Observed(Ok(weather))) => {
            &&& next == LookupState::Done
            &&& action matches LookupAction::Succeed(response)
            &&& reports(response, weather)
        },
        (LookupState::Forecasting, LookupEvent::Observed(Err(detail))) => {
            &&& next == LookupState::Done
            &&& action matches LookupAction::Fail(Error::FetchWeather(message))
            &&& message@ == detail@
        },
        _ => next == state && action is Rejected,
    }
}

/// One lookup of the weather at a place: first the place is found on the map,
/// then the forecast for it is fetched.
#[derive(Debug)]
pub struct Lookup {
    state: LookupState,
}

impl View for Lookup {
    type V = LookupState;

    closed spec fn view(&self) -> LookupState {
        self.state
    }
}

impl Lookup {
    /// The state that the lookup is in.
    pub fn state(&self) -> (state: LookupState)
        ensures
            state == self@,
    {
        self.state
    }

    /// Takes the answer of the service that was asked and decides what is
    /// done next.
    pub fn step(&mut self, event: LookupEvent) -> (action: LookupAction)
        ensures
            lookup_step(old(self)@, event, final(self)@, action),
    {
        match self.state {
            LookupState::Geocoding => match event {
                LookupEvent::Located(Ok(locations)) => {
                    if locations.len() > 0 {
                        let first = &locations[0];
                        let query = forecast_query_for(first.lat.clone(), first.lon.clone());
                        self.state = LookupState::Forecasting;
                        LookupAction::Forecast(query)
                    } else {
                        self.state = LookupState::Done;
                        LookupAction::Fail(
                            Error::FetchLocation(String::from_str("no location found")),
                        )
                    }
                },
                LookupEvent::Located(Err(detail)) => {
                    self.state = LookupState::Done;
                    LookupAction::Fail(Error::FetchLocation(detail))
                },
                _ => LookupAction::Rejected,
            },
            LookupState::Forecasting => match event {
                LookupEvent::Observed(Ok(weather)) => {
                    self.state = LookupState::Done;
                    LookupAction::Succeed(WeatherResponse::from(weather))
                },
                LookupEvent::Observed(Err(detail)) => {
                    self.state = LookupState::Done;
                    LookupAction::Fail(Error::FetchWeather(detail))
                },
                _ => LookupAction::Rejected,
            },
            LookupState::Done => LookupAction::Rejected,
        }
    }
}

fn forecast_query_for(lat: String, lon: String) -> (query: Query)
    ensures
        query@ == forecast_query(lat@, lon@),
{
    let mut parameters: Vec<(String, String)> = Vec::new();
    parameters.push((String::from_str("latitude"), lat));
    parameters.push((String::from_str("longitude"), lon));
    parameters.push(
        (
            String::from_str("current"),
            String::from_str(
                "temperature_2m,relative_humidity_2m,precipitation,cloud_cover,surface_pressure,wind_speed_10m,wind_direction_10m",
            ),
        ),
    );
    let query = Query {
        url: String::from_str("https://api.open-meteo.com/v1/forecast"),
        headers: Vec::new(),
        parameters,
    };
    assert(query@.parameters =~= forecast_query(lat@, lon@).parameters);
    assert(query@.headers =~= forecast_query(lat@, lon@).headers);
    query
}

/// The handler of the "weather" endpoint. It holds no state and no
/// configuration.
#[derive(Debug, Clone, Copy, PartialEq, Eq, Structural)]
pub struct WeatherHandler;

impl WeatherHandler {
    pub fn new() -> (handler: WeatherHandler)
        ensures
            handler == WeatherHandler,
    {
        WeatherHandler
    }

    /// Begins the lookup for a request: the lookup, and the question to the
    /// map service that opens it.
    pub fn lookup(&self, request: &WeatherRequest) -> (begun: (Lookup, Query))
        ensures
            begun.0@ == LookupState::Geocoding,
            begun.1@ == geocode_query(request@),
    {
        let mut headers: Vec<(String, String)> = Vec::new();
        headers.push((String::from_str("Accept"), String::from_str("application/json")));
        let mut parameters: Vec<(String, String)> = Vec::new();
        parameters.push((String::from_str("q"), String::from_str(request.place())));
        parameters.push((String::from_str("format"), String::from_str("json")));
        let query = Query {
            url: String::from_str("https://nominatim.openstreetmap.org/search"),
            headers,
            parameters,
        };
        assert(query@.headers =~= geocode_query(request@).headers);
        assert(query@.parameters =~= geocode_query(request@).parameters);
        (Lookup { state: LookupState::Geocoding }, query)
    }
}

} // verus!
