//! The travel planner: geocodes and driving routes from a maps service.

use crate::error::{answer, internal_error, possible_answer, ErrorCode, McpError, McpErrorView};
use crate::http::{
    is_success, undecodable, Body, BodyView, HttpOutcome, HttpOutcomeView, HttpRequest,
    HttpRequestView, Method,
};
use crate::json::{json_text, lemma_array_tree, read_json, Json, JsonView};
use crate::text::{parse_unsigned, same_text, unsigned_value};
use vstd::prelude::*;

verus! {

/// Plans travels by what the maps service answers.
#[derive(Debug, Clone)]
pub struct TravelPlanner;

/// Get the drive routes between two addresses.
#[derive(Debug, Clone, PartialEq, Eq)]
pub struct GetDriveRoutesRequest {
    /// The starting address.
    pub from: String,
    /// The destination address.
    pub to: String,
    /// The API key for the maps service.
    pub api_key: Option<String>,
}

/// Get the drive routes between two coordinates.
#[derive(Debug, Clone, PartialEq, Eq)]
pub struct GetDriveRoutesByCoordRequest {
    /// The starting coordinates, e.g. `116.310003,39.992892`.
    pub from: String,
    /// The destination coordinates, e.g. `116.310003,39.992892`.
    pub to: String,
    /// The API key for the maps service.
    pub api_key: Option<String>,
}

#[derive(Debug, Clone, Copy, PartialEq, Eq, Structural)]
pub struct GetDriveRoutesResponse {
    /// The number of directions.
    pub count: u64,
}

/// Get the geocode for an address.
#[derive(Debug, Clone, PartialEq, Eq)]
pub struct GetGeocodeRequest {
    /// The address to get the geocode for.
    pub address: String,
    /// The API key for the maps service.
    pub api_key: Option<String>,
}

#[derive(Debug, Clone, PartialEq, Eq)]
pub struct GetGeocodeResponse {
    /// The count of geocode results.
    pub count: u64,
    /// The geocode results.
    pub geocodes: Vec<Geocode>,
}

#[derive(Debug, Clone, PartialEq, Eq)]
pub struct Geocode {
    /// The formatted address.
    pub formatted_address: Option<String>,
    /// The country.
    pub country: Option<String>,
    /// The province.
    pub province: Option<String>,
    /// The city.
    pub city: Option<String>,
    /// The city code.
    pub city_code: Option<String>,
    /// The district.
    pub district: Option<String>,
    /// The street.
    pub street: Option<String>,
    /// The street number.
    pub number: Option<String>,
    /// The city code (adcode).
    pub adcode: Option<String>,
    /// The point.
    pub location: Option<String>,
    /// The geocoding matching level of the address.
    pub level: Option<String>,
}

/// The mathematical model of a `Geocode`.
pub struct GeocodeView {
    pub formatted_address: Option<Seq<char>>,
    pub country: Option<Seq<char>>,
    pub province: Option<Seq<char>>,
    pub city: Option<Seq<char>>,
    pub city_code: Option<Seq<char>>,
    pub district: Option<Seq<char>>,
    pub street: Option<Seq<char>>,
    pub number: Option<Seq<char>>,
    pub adcode: Option<Seq<char>>,
    pub location: Option<Seq<char>>,
    pub level: Option<Seq<char>>,
}

/// The mathematical model of a `GetGeocodeResponse`.
pub struct GetGeocodeResponseView {
    pub count: u64,
    pub geocodes: Seq<GeocodeView>,
}

impl DeepView for Geocode {
    type V = GeocodeView;

    open spec fn deep_view(&self) -> GeocodeView {
        GeocodeView {
            formatted_address: self.formatted_address.deep_view(),
            country: self.country.deep_view(),
            province: self.province.deep_view(),
            city: self.city.deep_view(),
            city_code: self.city_code.deep_view(),
            district: self.district.deep_view(),
            street: self.street.deep_view(),
            number: self.number.deep_view(),
            adcode: self.adcode.deep_view(),
            location: self.location.deep_view(),
            level: self.level.deep_view(),
        }
    }
}

impl DeepView for GetGeocodeResponse {
    type V = GetGeocodeResponseView;

    open spec fn deep_view(&self) -> GetGeocodeResponseView {
        GetGeocodeResponseView { count: self.count, geocodes: self.geocodes.deep_view() }
    }
}

impl DeepView for GetDriveRoutesResponse {
    type V = GetDriveRoutesResponse;

    open spec fn deep_view(&self) -> GetDriveRoutesResponse {
        *self
    }
}

// ---------------------------------------------------------------------------
// The API key.
// ---------------------------------------------------------------------------

/// The key that a call uses: the one that came with it, else the one of the
/// environment.
pub open spec fn chosen_key(requested: Option<Seq<char>>, environment: Option<Seq<char>>) -> Result<
    Seq<char>,
    McpErrorView,
> {
    match (requested, environment) {
        (Some(key), _) => Ok(key),
        (None, Some(key)) => Ok(key),
        (None, None) => Err(
            McpErrorView { code: ErrorCode::InvalidParams, message: "No API key provided"@ },
        ),
    }
}

/// Chooses the API key of a call.
pub fn choose_key(requested: Option<String>, environment: Option<String>) -> (r: Result<
    String,
    McpError,
>)
    ensures
        answer(r) == chosen_key(requested.deep_view(), environment.deep_view()),
{
    match requested {
        Some(key) => Ok(key),
        None => match environment {
            Some(key) => Ok(key),
            None => Err(
                McpError::new(ErrorCode::InvalidParams, "No API key provided".to_owned()),
            ),
        },
    }
}

// ---------------------------------------------------------------------------
// The requests to the maps service.
// ---------------------------------------------------------------------------

/// The request for the geocodes of an address.
pub open spec fn geocode_request(address: Seq<char>, key: Seq<char>) -> HttpRequestView {
    HttpRequestView {
        method: Method::Get,
        url: "https://restapi.amap.com/v3/geocode/geo"@,
        headers: Seq::empty(),
        query: seq![("address"@, address), ("key"@, key)],
        body: BodyView::Empty,
    }
}

/// The request for the driving routes between two points.
pub open spec fn routes_request(from: Seq<char>, to: Seq<char>, key: Seq<char>) -> HttpRequestView {
    HttpRequestView {
        method: Method::Get,
        url: "https://restapi.amap.com/v3/direction/driving"@,
        headers: Seq::empty(),
        query: seq![("origin"@, from), ("destination"@, to), ("key"@, key)],
        body: BodyView::Empty,
    }
}

fn ask_geocode(address: String, key: String) -> (r: HttpRequest)
    ensures
        r@ == geocode_request(address@, key@),
{
    let mut query: Vec<(String, String)> = Vec::new();
    query.push(("address".to_owned(), address));
    query.push(("key".to_owned(), key));
    let r = HttpRequest {
        method: Method::Get,
        url: "https://restapi.amap.com/v3/geocode/geo".to_owned(),
        headers: Vec::new(),
        query,
        body: Body::Empty,
    };
    assert(r@.query =~= geocode_request(address@, key@).query);
    assert(r@.headers =~= Seq::empty());
    r
}

fn ask_routes(from: String, to: String, key: String) -> (r: HttpRequest)
    ensures
        r@ == routes_request(from@, to@, key@),
{
    let mut query: Vec<(String, String)> = Vec::new();
    query.push(("origin".to_owned(), from));
    query.push(("destination".to_owned(), to));
    query.push(("key".to_owned(), key));
    let r = HttpRequest {
        method: Method::Get,
        url: "https://restapi.amap.com/v3/direction/driving".to_owned(),
        headers: Vec::new(),
        query,
        body: Body::Empty,
    };
    assert(r@.query =~= routes_request(from@, to@, key@).query);
    assert(r@.headers =~= Seq::empty());
    r
}

// ---------------------------------------------------------------------------
// The documents that the maps service answers with.
// ---------------------------------------------------------------------------

/// Whether the service refused the request.
pub open spec fn refused(json: JsonView) -> bool {
    json.text_of("status"@) == Some("0"@)
}

/// The error for a request that the service refused.
pub open spec fn refusal(json: JsonView) -> McpErrorView {
    internal_error("Failed to get drive routes: "@ + json.text_of("info"@).unwrap())
}

/// Whether the document says if the request was refused, and why if it was.
pub open spec fn status_shape(json: JsonView) -> bool {
    &&& json.text_of("status"@) is Some
    &&& refused(json) ==> json.text_of("info"@) is Some
}

/// Whether the document is an answer to a geocode request: a refusal with its
/// reason, or a count and a list of objects.
pub open spec fn geocode_shape(json: JsonView) -> bool {
    &&& status_shape(json)
    &&& !refused(json) ==> {
        &&& json.text_of("count"@) matches Some(count)
        &&& unsigned_value(count) is Some
        &&& json.get("geocodes"@) matches Some(list)
        &&& list matches JsonView::Array(items)
        &&& forall|i: int| 0 <= i < items.len() ==> (#[trigger] items[i]) is Object
    }
}

/// The geocode that an object describes. A member that is not a text counts as
/// absent.
pub open spec fn geocode_of(object: JsonView) -> GeocodeView {
    GeocodeView {
        formatted_address: object.text_of("formatted_address"@),
        country: object.text_of("country"@),
        province: object.text_of("province"@),
        city: object.text_of("city"@),
        city_code: object.text_of("citycode"@),
        district: object.text_of("district"@),
        street: object.text_of("street"@),
        number: object.text_of("number"@),
        adcode: object.text_of("adcode"@),
        location: object.text_of("location"@),
        level: object.text_of("level"@),
    }
}

/// What the document comes to as the answer to a geocode request.
pub open spec fn geocode_answer(json: JsonView) -> Result<GetGeocodeResponseView, McpErrorView> {
    if refused(json) {
        Err(refusal(json))
    } else {
        let items = json.get("geocodes"@).unwrap()->Array_0;
        Ok(
            GetGeocodeResponseView {
                count: unsigned_value(json.text_of("count"@).unwrap()).unwrap(),
                geocodes: Seq::new(items.len(), |i: int| geocode_of(items[i])),
            },
        )
    }
}

/// The directions that the document lists: the paths of its route, none where it
/// has no such list.
pub open spec fn directions(json: JsonView) -> Seq<JsonView> {
    match json.get("route"@) {
        Some(route) => match route.get("paths"@) {
            Some(JsonView::Array(paths)) => paths,
            _ => Seq::empty(),
        },
        None => Seq::empty(),
    }
}

/// What the document comes to as the answer to a request for routes: a refusal, or
/// the number of directions.
pub open spec fn routes_answer(json: JsonView) -> Result<GetDriveRoutesResponse, McpErrorView> {
    if refused(json) {
        Err(refusal(json))
    } else {
        Ok(GetDriveRoutesResponse { count: directions(json).len() as u64 })
    }
}

/// The text of the member with the given name, where it is a text.
fn optional_text<'a>(object: &'a Json, name: &str) -> (r: Option<&'a String>)
    ensures
        r.deep_view() == object@.text_of(name@),
{
    match object.get(name) {
        Some(value) => match value {
            Json::Text(s) => Some(s),
            _ => None,
        },
        None => None,
    }
}

/// A copy of the text of the member with the given name, where it is a text.
fn text_field(object: &Json, name: &str) -> (r: Option<String>)
    ensures
        r.deep_view() == object@.text_of(name@),
{
    match optional_text(object, name) {
        Some(s) => Some(s.clone()),
        None => None,
    }
}

/// Reads one geocode.
pub fn read_geocode(object: &Json) -> (r: Geocode)
    ensures
        r.deep_view() == geocode_of(object@),
{
    Geocode {
        formatted_address: text_field(object, "formatted_address"),
        country: text_field(object, "country"),
        province: text_field(object, "province"),
        city: text_field(object, "city"),
        city_code: text_field(object, "citycode"),
        district: text_field(object, "district"),
        street: text_field(object, "street"),
        number: text_field(object, "number"),
        adcode: text_field(object, "adcode"),
        location: text_field(object, "location"),
        level: text_field(object, "level"),
    }
}

/// The error where the document refuses the request, else `Some(None)`; `None`
/// where the document does not say.
fn read_refusal(json: &Json) -> (r: Option<Option<McpError>>)
    ensures
        match r {
            None => !status_shape(json@),
            Some(None) => status_shape(json@) && !refused(json@),
            Some(Some(e)) => status_shape(json@) && refused(json@) && e@ == refusal(json@),
        },
{
    match optional_text(json, "status") {
        None => None,
        Some(status) => if same_text(status.as_str(), "0") {
            match optional_text(json, "info") {
                None => None,
                Some(info) => Some(
                    Some(McpError::caused("Failed to get drive routes: ", info.as_str())),
                ),
            }
        } else {
            Some(None)
        },
    }
}

/// Reads the geocodes of a list; `None` where one of the items is not an object.
fn read_geocodes(items: &Vec<Json>) -> (r: Option<Vec<Geocode>>)
    ensures
        match r {
            Some(geocodes) => {
                &&& forall|i: int|
                    0 <= i < items@.len() ==> (#[trigger] items.deep_view()[i]) is Object
                &&& geocodes.deep_view() == Seq::new(
                    items@.len(),
                    |i: int| geocode_of(items.deep_view()[i]),
                )
            },
            None => exists|i: int|
                0 <= i < items@.len() && !((#[trigger] items.deep_view()[i]) is Object),
        },
{
    let mut geocodes: Vec<Geocode> = Vec::new();
    let mut i: usize = 0;
    while i < items.len()
        invariant
            i <= items@.len(),
            forall|k: int| 0 <= k < i ==> (#[trigger] items.deep_view()[k]) is Object,
            geocodes.deep_view() == Seq::new(
                i as nat,
                |k: int| geocode_of(items.deep_view()[k]),
            ),
        decreases items.len() - i,
    {
        let ghost before = geocodes.deep_view();
        assert(items.deep_view()[i as int] == items@[i as int]@);
        match &items[i] {
            Json::Object(_) => {},
            _ => {
                return None;
            },
        }
        geocodes.push(read_geocode(&items[i]));
        assert(geocodes.deep_view() =~= before.push(geocode_of(items.deep_view()[i as int])));
        i = i + 1;
    }
    Some(geocodes)
}

/// Reads the answer to a geocode request; `None` where the document is not one.
pub fn read_geocode_answer(json: &Json) -> (r: Option<Result<GetGeocodeResponse, McpError>>)
    ensures
        possible_answer(r) == (if geocode_shape(json@) {
            Some(geocode_answer(json@))
        } else {
            None
        }),
{
    match read_refusal(json) {
        None => {
            return None;
        },
        Some(Some(e)) => {
            return Some(Err(e));
        },
        Some(None) => {},
    }
    let count: u64 = match optional_text(json, "count") {
        None => {
            return None;
        },
        Some(text) => match parse_unsigned(text.as_str()) {
            None => {
                return None;
            },
            Some(count) => count,
        },
    };
    match json.get("geocodes") {
        Some(Json::Array(items)) => {
            proof {
                lemma_array_tree(*items);
            }
            match read_geocodes(items) {
                Some(geocodes) => Some(Ok(GetGeocodeResponse { count, geocodes })),
                None => None,
            }
        },
        _ => None,
    }
}

/// Counts the directions that the document lists.
pub fn count_directions(json: &Json) -> (r: u64)
    ensures
        r == directions(json@).len(),
{
    match json.get("route") {
        Some(route) => match route.get("paths") {
            Some(Json::Array(paths)) => {
                proof {
                    lemma_array_tree(*paths);
                }
                paths.len() as u64
            },
            _ => 0,
        },
        None => 0,
    }
}

/// Reads the answer to a request for routes; `None` where the document is not one.
pub fn read_routes_answer(json: &Json) -> (r: Option<Result<GetDriveRoutesResponse, McpError>>)
    ensures
        possible_answer(r) == (if status_shape(json@) {
            Some(routes_answer(json@))
        } else {
            None
        }),
{
    match read_refusal(json) {
        None => None,
        Some(Some(e)) => Some(Err(e)),
        Some(None) => Some(Ok(GetDriveRoutesResponse { count: count_directions(json) })),
    }
}

// ---------------------------------------------------------------------------
// The replies of the maps service.
// ---------------------------------------------------------------------------

/// The document that a request brought, or the error that it ends the call with.
pub open spec fn reply_document(outcome: HttpOutcomeView) -> Result<JsonView, McpErrorView> {
    match outcome {
        HttpOutcomeView::SendFailed(e) => Err(internal_error(e)),
        HttpOutcomeView::BodyFailed(status, e) => if is_success(status) {
            Err(internal_error(e))
        } else {
            Err(internal_error("Failed to get directions"@))
        },
        HttpOutcomeView::Reply(status, body) => if is_success(status) {
            match json_text(body) {
                Some(json) => Ok(json),
                None => Err(internal_error(undecodable())),
            }
        } else {
            Err(internal_error("Failed to get directions"@))
        },
    }
}

/// What the outcome of a geocode request comes to; `None` where the service sent
/// a document that is no answer.
pub open spec fn geocode_result(outcome: HttpOutcomeView) -> Option<
    Result<GetGeocodeResponseView, McpErrorView>,
> {
    match reply_document(outcome) {
        Err(e) => Some(Err(e)),
        Ok(json) => if geocode_shape(json) {
            Some(geocode_answer(json))
        } else {
            None
        },
    }
}

/// What the outcome of a request for routes comes to; `None` where the service
/// sent a document that is no answer.
pub open spec fn routes_result(outcome: HttpOutcomeView) -> Option<
    Result<GetDriveRoutesResponse, McpErrorView>,
> {
    match reply_document(outcome) {
        Err(e) => Some(Err(e)),
        Ok(json) => if status_shape(json) {
            Some(routes_answer(json))
        } else {
            None
        },
    }
}

/// Reads the document that a request brought.
pub fn read_document(outcome: &HttpOutcome) -> (r: Result<Json, McpError>)
    ensures
        answer(r) == reply_document(outcome@),
{
    match outcome {
        HttpOutcome::SendFailed(e) => Err(McpError::internal(e.as_str())),
        HttpOutcome::BodyFailed(status, e) => if status.is_success() {
            Err(McpError::internal(e.as_str()))
        } else {
            Err(McpError::internal("Failed to get directions"))
        },
        HttpOutcome::Reply(status, body) => if status.is_success() {
            match read_json(body.as_slice()) {
                Some(json) => Ok(json),
                None => Err(McpError::internal("error decoding response body")),
            }
        } else {
            Err(McpError::internal("Failed to get directions"))
        },
    }
}

// ---------------------------------------------------------------------------
// The tools.
// ---------------------------------------------------------------------------

/// The point of the first geocode.
pub open spec fn first_location(response: GetGeocodeResponseView) -> Option<Seq<char>> {
    if response.geocodes.len() > 0 {
        response.geocodes[0].location
    } else {
        None
    }
}

/// How far a call for the routes between two addresses has come.
#[derive(Debug, Clone, PartialEq, Eq)]
pub enum DriveRoutes {
    /// The geocodes of the starting address were asked for.
    Start { to: String, api_key: String },
    /// The starting point is known; the geocodes of the destination were asked for.
    Destination { from: String, api_key: String },
    /// Both points are known; the routes were asked for.
    Routes,
}

/// The mathematical model of a `DriveRoutes`.
pub enum DriveRoutesView {
    Start { to: Seq<char>, api_key: Seq<char> },
    Destination { from: Seq<char>, api_key: Seq<char> },
    Routes,
}

/// What a call for the routes between two addresses does next.
#[derive(Debug, PartialEq, Eq)]
pub enum DriveStep {
    /// Send a request, and go on from the given point with what becomes of it.
    Send(DriveRoutes, HttpRequest),
    /// The call is answered.
    Done(Result<GetDriveRoutesResponse, McpError>),
    /// The service sent a document that is no answer, or found no point for an
    /// address: the call has no answer.
    Unanswerable,
}

/// The mathematical model of a `DriveStep`.
pub enum DriveStepView {
    Send(DriveRoutesView, HttpRequestView),
    Done(Result<GetDriveRoutesResponse, McpErrorView>),
    Unanswerable,
}

impl View for DriveRoutes {
    type V = DriveRoutesView;

    open spec fn view(&self) -> DriveRoutesView {
        match self {
            DriveRoutes::Start { to, api_key } => DriveRoutesView::Start {
                to: to@,
                api_key: api_key@,
            },
            DriveRoutes::Destination { from, api_key } => DriveRoutesView::Destination {
                from: from@,
                api_key: api_key@,
            },
            DriveRoutes::Routes => DriveRoutesView::Routes,
        }
    }
}

impl View for DriveStep {
    type V = DriveStepView;

    open spec fn view(&self) -> DriveStepView {
        match self {
            DriveStep::Send(next, request) => DriveStepView::Send(next@, request@),
            DriveStep::Done(r) => DriveStepView::Done(answer(*r)),
            DriveStep::Unanswerable => DriveStepView::Unanswerable,
        }
    }
}

/// The first step of a call for the routes between two addresses.
pub open spec fn drive_start(
    from: Seq<char>,
    to: Seq<char>,
    key: Result<Seq<char>, McpErrorView>,
) -> DriveStepView {
    match key {
        Ok(api_key) => DriveStepView::Send(
            DriveRoutesView::Start { to, api_key },
            geocode_request(from, api_key),
        ),
        Err(e) => DriveStepView::Done(Err(e)),
    }
}

/// The step that follows when the request of the last one has come to `outcome`.
pub open spec fn drive_next(state: DriveRoutesView, outcome: HttpOutcomeView) -> DriveStepView {
    match state {
        DriveRoutesView::Routes => match routes_result(outcome) {
            Some(r) => DriveStepView::Done(r),
            None => DriveStepView::Unanswerable,
        },
        DriveRoutesView::Start { to, api_key } => match geocode_result(outcome) {
            Some(Ok(response)) => match first_location(response) {
                Some(from) => DriveStepView::Send(
                    DriveRoutesView::Destination { from, api_key },
                    geocode_request(to, api_key),
                ),
                None => DriveStepView::Unanswerable,
            },
            Some(Err(e)) => DriveStepView::Done(Err(e)),
            None => DriveStepView::Unanswerable,
        },
        DriveRoutesView::Destination { from, api_key } => match geocode_result(outcome) {
            Some(Ok(response)) => match first_location(response) {
                Some(to) => DriveStepView::Send(
                    DriveRoutesView::Routes,
                    routes_request(from, to, api_key),
                ),
                None => DriveStepView::Unanswerable,
            },
            Some(Err(e)) => DriveStepView::Done(Err(e)),
            None => DriveStepView::Unanswerable,
        },
    }
}

impl TravelPlanner {
    /// Get the geocode for an address: the request to send. `environment` is the
    /// key that the environment offers.
    pub fn get_geocode(&self, request: GetGeocodeRequest, environment: Option<String>) -> (r:
        Result<HttpRequest, McpError>)
        ensures
            answer(r) == (match chosen_key(request.api_key.deep_view(), environment.deep_view()) {
                Ok(key) => Ok(geocode_request(request.address@, key)),
                Err(e) => Err(e),
            }),
    {
        match choose_key(request.api_key, environment) {
            Ok(key) => Ok(ask_geocode(request.address, key)),
            Err(e) => Err(e),
        }
    }

    /// The answer that the outcome of a geocode request gives; `None` where the
    /// service sent a document that is no answer.
    pub fn geocode_reply(&self, outcome: &HttpOutcome) -> (r: Option<
        Result<GetGeocodeResponse, McpError>,
    >)
        ensures
            possible_answer(r) == geocode_result(outcome@),
    {
        match read_document(outcome) {
            Ok(json) => read_geocode_answer(&json),
            Err(e) => Some(Err(e)),
        }
    }

    /// Get the drive routes between two coordinates: the request to send.
    pub fn get_drive_routes_by_coord(
        &self,
        request: GetDriveRoutesByCoordRequest,
        environment: Option<String>,
    ) -> (r: Result<HttpRequest, McpError>)
        ensures
            answer(r) == (match chosen_key(request.api_key.deep_view(), environment.deep_view()) {
                Ok(key) => Ok(routes_request(request.from@, request.to@, key)),
                Err(e) => Err(e),
            }),
    {
        match choose_key(request.api_key, environment) {
            Ok(key) => Ok(ask_routes(request.from, request.to, key)),
            Err(e) => Err(e),
        }
    }

    /// The answer that the outcome of a request for routes gives; `None` where the
    /// service sent a document that is no answer.
    pub fn routes_reply(&self, outcome: &HttpOutcome) -> (r: Option<
        Result<GetDriveRoutesResponse, McpError>,
    >)
        ensures
            possible_answer(r) == routes_result(outcome@),
    {
        match read_document(outcome) {
            Ok(json) => read_routes_answer(&json),
            Err(e) => Some(Err(e)),
        }
    }

    /// The point that the outcome of a geocode request gives.
    fn location_reply(&self, outcome: &HttpOutcome) -> (r: Option<Result<String, McpError>>)
        ensures
            possible_answer(r) == (match geocode_result(outcome@) {
                Some(Ok(response)) => match first_location(response) {
                    Some(location) => Some(Ok(location)),
                    None => None,
                },
                Some(Err(e)) => Some(Err(e)),
                None => None,
            }),
    {
        match self.geocode_reply(outcome) {
            Some(Ok(response)) => {
                if response.geocodes.len() == 0 {
                    return None;
                }
                assert(response.deep_view().geocodes[0] == response.geocodes@[0].deep_view());
                match &response.geocodes[0].location {
                    Some(location) => Some(Ok(location.clone())),
                    None => None,
                }
            },
            Some(Err(e)) => Some(Err(e)),
            None => None,
        }
    }

    /// Get the drive routes between two addresses: the first step of the call.
    pub fn get_drive_routes(&self, request: GetDriveRoutesRequest, environment: Option<String>) -> (
    r: DriveStep)
        ensures
            r@ == drive_start(
                request.from@,
                request.to@,
                chosen_key(request.api_key.deep_view(), environment.deep_view()),
            ),
    {
        match choose_key(request.api_key, environment) {
            Ok(api_key) => DriveStep::Send(
                DriveRoutes::Start { to: request.to, api_key: api_key.clone() },
                ask_geocode(request.from, api_key),
            ),
            Err(e) => DriveStep::Done(Err(e)),
        }
    }

    /// The step that follows when the request of the last one has come to `outcome`.
    pub fn resume_drive_routes(&self, state: DriveRoutes, outcome: &HttpOutcome) -> (r: DriveStep)
        ensures
            r@ == drive_next(state@, outcome@),
    {
        match state {
            DriveRoutes::Routes => match self.routes_reply(outcome) {
                Some(r) => DriveStep::Done(r),
                None => DriveStep::Unanswerable,
            },
            DriveRoutes::Start { to, api_key } => match self.location_reply(outcome) {
                Some(Ok(from)) => DriveStep::Send(
                    DriveRoutes::Destination { from, api_key: api_key.clone() },
                    ask_geocode(to, api_key),
                ),
                Some(Err(e)) => DriveStep::Done(Err(e)),
                None => DriveStep::Unanswerable,
            },
            DriveRoutes::Destination { from, api_key } => match self.location_reply(outcome) {
                Some(Ok(to)) => DriveStep::Send(
                    DriveRoutes::Routes,
                    ask_routes(from, to, api_key),
                ),
                Some(Err(e)) => DriveStep::Done(Err(e)),
                None => DriveStep::Unanswerable,
            },
        }
    }
}

// ---------------------------------------------------------------------------
// What holds of every call.
// ---------------------------------------------------------------------------

/// A key that comes with the call is used whatever the environment offers, and the
/// call is refused only where neither offers one.
pub proof fn the_key_of_the_call_comes_first(
    requested: Option<Seq<char>>,
    environment: Option<Seq<char>>,
)
    ensures
        requested is Some ==> chosen_key(requested, environment) == Ok::<Seq<char>, McpErrorView>(
            requested.unwrap(),
        ),
        chosen_key(requested, environment) is Err <==> requested is None && environment is None,
        chosen_key(requested, environment) matches Err(e) ==> e.code == ErrorCode::InvalidParams,
{
}

/// The call for the routes between two addresses asks for the geocodes of the one
/// and of the other, then for the routes between the points of the first geocodes,
/// and is answered by what that last request brings.
pub proof fn routes_lead_from_point_to_point(
    from: Seq<char>,
    to: Seq<char>,
    key: Seq<char>,
    start: HttpOutcomeView,
    destination: HttpOutcomeView,
    routes: HttpOutcomeView,
    start_point: Seq<char>,
    destination_point: Seq<char>,
    result: Result<GetDriveRoutesResponse, McpErrorView>,
)
    requires
        geocode_result(start) matches Some(Ok(response)) && first_location(response) == Some(
            start_point,
        ),
        geocode_result(destination) matches Some(Ok(response)) && first_location(response) == Some(
            destination_point,
        ),
        routes_result(routes) == Some(result),
    ensures
        ({
            let first = drive_start(from, to, Ok(key));
            let second = drive_next(first->Send_0, start);
            let third = drive_next(second->Send_0, destination);
            &&& first is Send && first->Send_1 == geocode_request(from, key)
            &&& second is Send && second->Send_1 == geocode_request(to, key)
            &&& third is Send && third->Send_1 == routes_request(
                start_point,
                destination_point,
                key,
            )
            &&& drive_next(third->Send_0, routes) == DriveStepView::Done(result)
        }),
{
}

/// A request that brings no document ends the call with the error that it gives,
/// whichever request it was.
pub proof fn a_failed_request_ends_the_call(
    state: DriveRoutesView,
    outcome: HttpOutcomeView,
    e: McpErrorView,
)
    requires
        reply_document(outcome) == Err::<JsonView, McpErrorView>(e),
    ensures
        drive_next(state, outcome) == DriveStepView::Done(Err(e)),
{
}

/// A document with which the service refuses a request ends the call with the
/// service's reason, whichever request it was.
pub proof fn a_refused_request_ends_the_call(
    state: DriveRoutesView,
    outcome: HttpOutcomeView,
    json: JsonView,
    reason: Seq<char>,
)
    requires
        reply_document(outcome) == Ok::<JsonView, McpErrorView>(json),
        refused(json),
        json.text_of("info"@) == Some(reason),
    ensures
        drive_next(state, outcome) == DriveStepView::Done(
            Err(internal_error("Failed to get drive routes: "@ + reason)),
        ),
{
}

/// The body of a reply that does not report success does not count.
pub proof fn an_unsuccessful_reply_is_not_read(status: u16, body: Seq<u8>)
    requires
        !is_success(status),
    ensures
        reply_document(HttpOutcomeView::Reply(status, body)) == Err::<JsonView, McpErrorView>(
            internal_error("Failed to get directions"@),
        ),
{
}

/// The number of requests of which a call still awaits the outcome, at most.
pub open spec fn requests_left(state: DriveRoutesView) -> nat {
    match state {
        DriveRoutesView::Start { .. } => 3,
        DriveRoutesView::Destination { .. } => 2,
        DriveRoutesView::Routes => 1,
    }
}

/// Every outcome brings a call nearer to its end, which it reaches after three
/// requests at most.
pub proof fn every_call_ends(
    from: Seq<char>,
    to: Seq<char>,
    key: Result<Seq<char>, McpErrorView>,
    state: DriveRoutesView,
    outcome: HttpOutcomeView,
)
    ensures
        drive_start(from, to, key) matches DriveStepView::Send(first, _) ==> requests_left(first)
            == 3,
        drive_next(state, outcome) matches DriveStepView::Send(next, _) ==> requests_left(next)
            < requests_left(state),
        requests_left(state) >= 1,
{
}

/// Each field of a geocode is the whole text of the member that it is named for, and
/// is absent where that member is no text.
pub proof fn a_geocode_holds_the_texts_of_its_object(object: JsonView, s: Seq<char>)
    ensures
        object.get("formatted_address"@) == Some(JsonView::Text(s)) <==> geocode_of(object).formatted_address
            == Some(s),
        object.get("country"@) == Some(JsonView::Text(s)) <==> geocode_of(object).country
            == Some(s),
        object.get("province"@) == Some(JsonView::Text(s)) <==> geocode_of(object).province
            == Some(s),
        object.get("city"@) == Some(JsonView::Text(s)) <==> geocode_of(object).city
            == Some(s),
        object.get("citycode"@) == Some(JsonView::Text(s)) <==> geocode_of(object).city_code
            == Some(s),
        object.get("district"@) == Some(JsonView::Text(s)) <==> geocode_of(object).district
            == Some(s),
        object.get("street"@) == Some(JsonView::Text(s)) <==> geocode_of(object).street
            == Some(s),
        object.get("number"@) == Some(JsonView::Text(s)) <==> geocode_of(object).number
            == Some(s),
        object.get("adcode"@) == Some(JsonView::Text(s)) <==> geocode_of(object).adcode
            == Some(s),
        object.get("location"@) == Some(JsonView::Text(s)) <==> geocode_of(object).location
            == Some(s),
        object.get("level"@) == Some(JsonView::Text(s)) <==> geocode_of(object).level
            == Some(s),
{
}

/// A successful reply that lists geocodes is answered with the count that it tells
/// and with all of its geocodes, in their order and each as its object describes it.
pub proof fn every_geocode_of_the_reply_is_answered(
    status: u16,
    body: Seq<u8>,
    json: JsonView,
    said: Seq<char>,
    number: Seq<char>,
    count: u64,
    items: Seq<JsonView>,
)
    requires
        200 <= status < 300,
        json_text(body) == Some(json),
        json.get("status"@) == Some(JsonView::Text(said)),
        said != "0"@,
        json.get("count"@) == Some(JsonView::Text(number)),
        unsigned_value(number) == Some(count),
        json.get("geocodes"@) == Some(JsonView::Array(items)),
        forall|i: int| 0 <= i < items.len() ==> (#[trigger] items[i]) is Object,
    ensures
        geocode_result(HttpOutcomeView::Reply(status, body)) matches Some(Ok(response))
            && response.count == count && response.geocodes.len() == items.len() && forall|i: int|
            0 <= i < items.len() ==> #[trigger] response.geocodes[i] == geocode_of(items[i]),
{
}

/// Of every geocode that a successful reply lists, each field is answered with the
/// whole text of the member that it is named for, and with nothing where that member
/// is no text.
pub proof fn every_text_of_the_reply_is_answered_whole(
    status: u16,
    body: Seq<u8>,
    json: JsonView,
    said: Seq<char>,
    number: Seq<char>,
    count: u64,
    items: Seq<JsonView>,
    i: int,
    s: Seq<char>,
)
    requires
        200 <= status < 300,
        json_text(body) == Some(json),
        json.get("status"@) == Some(JsonView::Text(said)),
        said != "0"@,
        json.get("count"@) == Some(JsonView::Text(number)),
        unsigned_value(number) == Some(count),
        json.get("geocodes"@) == Some(JsonView::Array(items)),
        forall|i: int| 0 <= i < items.len() ==> (#[trigger] items[i]) is Object,
        0 <= i < items.len(),
    ensures
        ({
            &&& geocode_result(HttpOutcomeView::Reply(status, body)) matches Some(Ok(response))
            &&& items[i].get("formatted_address"@) == Some(JsonView::Text(s)) <==> response.geocodes[i].formatted_address
                == Some(s)
            &&& items[i].get("country"@) == Some(JsonView::Text(s)) <==> response.geocodes[i].country
                == Some(s)
            &&& items[i].get("province"@) == Some(JsonView::Text(s)) <==> response.geocodes[i].province
                == Some(s)
            &&& items[i].get("city"@) == Some(JsonView::Text(s)) <==> response.geocodes[i].city
                == Some(s)
            &&& items[i].get("citycode"@) == Some(JsonView::Text(s)) <==> response.geocodes[i].city_code
                == Some(s)
            &&& items[i].get("district"@) == Some(JsonView::Text(s)) <==> response.geocodes[i].district
                == Some(s)
            &&& items[i].get("street"@) == Some(JsonView::Text(s)) <==> response.geocodes[i].street
                == Some(s)
            &&& items[i].get("number"@) == Some(JsonView::Text(s)) <==> response.geocodes[i].number
                == Some(s)
            &&& items[i].get("adcode"@) == Some(JsonView::Text(s)) <==> response.geocodes[i].adcode
                == Some(s)
            &&& items[i].get("location"@) == Some(JsonView::Text(s)) <==> response.geocodes[i].location
                == Some(s)
            &&& items[i].get("level"@) == Some(JsonView::Text(s)) <==> response.geocodes[i].level
                == Some(s)
        }),
{
    a_geocode_holds_the_texts_of_its_object(items[i], s);
}

/// Geocodes are answered only where a successful reply lists them.
pub proof fn geocodes_come_from_the_reply(
    outcome: HttpOutcomeView,
    response: GetGeocodeResponseView,
)
    requires
        geocode_result(outcome) == Some(Ok::<GetGeocodeResponseView, McpErrorView>(response)),
    ensures
        ({
            &&& outcome matches HttpOutcomeView::Reply(status, body)
            &&& 200 <= status < 300
            &&& json_text(body) matches Some(json)
            &&& json.get("status"@) matches Some(JsonView::Text(said))
            &&& said != "0"@
            &&& json.get("count"@) matches Some(JsonView::Text(number))
            &&& unsigned_value(number) == Some(response.count)
            &&& json.get("geocodes"@) matches Some(JsonView::Array(items))
            &&& items.len() == response.geocodes.len()
            &&& forall|i: int| 0 <= i < items.len() ==> (#[trigger] items[i]) is Object
        }),
{
}

/// The directions that a successful reply lists are counted, all of them; where it
/// lists none the count is zero.
pub proof fn every_direction_of_the_reply_is_counted(
    status: u16,
    body: Seq<u8>,
    json: JsonView,
    said: Seq<char>,
)
    requires
        200 <= status < 300,
        json_text(body) == Some(json),
        json.get("status"@) == Some(JsonView::Text(said)),
        said != "0"@,
    ensures
        routes_result(HttpOutcomeView::Reply(status, body)) matches Some(Ok(response)) && (
        match json.get("route"@) {
            Some(route) => match route.get("paths"@) {
                Some(JsonView::Array(paths)) => paths.len() <= u64::MAX ==> response.count
                    == paths.len(),
                _ => response.count == 0,
            },
            None => response.count == 0,
        }),
{
}

/// A count of directions is answered only where a successful reply says that the
/// request was not refused.
pub proof fn directions_come_from_the_reply(
    outcome: HttpOutcomeView,
    response: GetDriveRoutesResponse,
)
    requires
        routes_result(outcome) == Some(Ok::<GetDriveRoutesResponse, McpErrorView>(response)),
    ensures
        ({
            &&& outcome matches HttpOutcomeView::Reply(status, body)
            &&& 200 <= status < 300
            &&& json_text(body) matches Some(json)
            &&& json.get("status"@) matches Some(JsonView::Text(said))
            &&& said != "0"@
        }),
{
}

/// A request that brings no document comes to an internal error: with the text of the
/// client's error, or with the word that the reply does not report success. The
/// error is the same for geocodes and for routes.
pub proof fn a_request_without_a_document_says_why(status: u16, body: Seq<u8>, e: Seq<char>)
    ensures
        reply_document(HttpOutcomeView::SendFailed(e)) == Err::<JsonView, _>(
            McpErrorView { code: ErrorCode::InternalError, message: e },
        ),
        200 <= status < 300 ==> reply_document(HttpOutcomeView::BodyFailed(status, e)) == Err::<
            JsonView,
            _,
        >(McpErrorView { code: ErrorCode::InternalError, message: e }),
        200 <= status < 300 && json_text(body) is None ==> reply_document(
            HttpOutcomeView::Reply(status, body),
        ) == Err::<JsonView, _>(
            McpErrorView {
                code: ErrorCode::InternalError,
                message: "error decoding response body"@,
            },
        ),
        !(200 <= status < 300) ==> {
            let refused = Err::<JsonView, _>(
                McpErrorView {
                    code: ErrorCode::InternalError,
                    message: "Failed to get directions"@,
                },
            );
            &&& reply_document(HttpOutcomeView::BodyFailed(status, e)) == refused
            &&& reply_document(HttpOutcomeView::Reply(status, body)) == refused
        },
        200 <= status < 300 ==> (json_text(body) matches Some(json) ==> reply_document(
            HttpOutcomeView::Reply(status, body),
        ) == Ok::<JsonView, McpErrorView>(json)),
        forall|outcome: HttpOutcomeView|
            (#[trigger] reply_document(outcome)) matches Err(told) ==> geocode_result(outcome)
                == Some(Err::<GetGeocodeResponseView, McpErrorView>(told)) && routes_result(outcome)
                == Some(Err::<GetDriveRoutesResponse, McpErrorView>(told)),
{
}

/// A document that refuses the request comes to an internal error with its reason; one
/// that tells no status, or refuses without a reason, is no answer.
pub proof fn a_refusal_is_told_with_its_reason(status: u16, body: Seq<u8>, json: JsonView)
    requires
        200 <= status < 300,
        json_text(body) == Some(json),
    ensures
        ({
            let outcome = HttpOutcomeView::Reply(status, body);
            match json.get("status"@) {
                Some(JsonView::Text(said)) => said == "0"@ ==> match json.get("info"@) {
                    Some(JsonView::Text(reason)) => {
                        let told = McpErrorView {
                            code: ErrorCode::InternalError,
                            message: "Failed to get drive routes: "@ + reason,
                        };
                        &&& geocode_result(outcome) == Some(
                            Err::<GetGeocodeResponseView, McpErrorView>(told),
                        )
                        &&& routes_result(outcome) == Some(
                            Err::<GetDriveRoutesResponse, McpErrorView>(told),
                        )
                    },
                    _ => geocode_result(outcome) is None && routes_result(outcome) is None,
                },
                _ => geocode_result(outcome) is None && routes_result(outcome) is None,
            }
        }),
{
}

/// A call without a key of its own uses that of the environment, as it is, and is
/// told so where there is none.
pub proof fn the_key_of_the_environment_comes_next(environment: Seq<char>)
    ensures
        chosen_key(None, Some(environment)) == Ok::<Seq<char>, McpErrorView>(environment),
        chosen_key(None, None) == Err::<Seq<char>, _>(
            McpErrorView { code: ErrorCode::InvalidParams, message: "No API key provided"@ },
        ),
{
}

/// The maps service is asked for what the call names: the whole address, or the two
/// points, the start as the origin and the other as the destination, and with the
/// key.
pub proof fn the_service_is_asked_for_what_the_call_names(
    address: Seq<char>,
    from: Seq<char>,
    to: Seq<char>,
    key: Seq<char>,
)
    ensures
        ({
            let request = geocode_request(address, key);
            &&& request.method == Method::Get && request.body == BodyView::Empty
            &&& request.url == "https://restapi.amap.com/v3/geocode/geo"@
            &&& request.headers.len() == 0
            &&& request.query.len() == 2
            &&& request.query.contains(("address"@, address))
            &&& request.query.contains(("key"@, key))
        }),
        ({
            let request = routes_request(from, to, key);
            &&& request.method == Method::Get && request.body == BodyView::Empty
            &&& request.url == "https://restapi.amap.com/v3/direction/driving"@
            &&& request.headers.len() == 0
            &&& request.query.len() == 3
            &&& request.query.contains(("origin"@, from))
            &&& request.query.contains(("destination"@, to))
            &&& request.query.contains(("key"@, key))
        }),
{
    let geocode = geocode_request(address, key);
    assert(geocode.query[0] == ("address"@, address));
    assert(geocode.query[1] == ("key"@, key));
    let routes = routes_request(from, to, key);
    assert(routes.query[0] == ("origin"@, from));
    assert(routes.query[1] == ("destination"@, to));
    assert(routes.query[2] == ("key"@, key));
}

/// The point of an address is the location of the first geocode that the reply
/// lists, whatever geocodes follow: it is the origin where the address is the start,
/// and the destination where it is the other.
pub proof fn the_first_geocode_of_an_address_counts(
    status: u16,
    body: Seq<u8>,
    json: JsonView,
    said: Seq<char>,
    number: Seq<char>,
    count: u64,
    items: Seq<JsonView>,
    point: Seq<char>,
    address: Seq<char>,
    origin: Seq<char>,
    key: Seq<char>,
)
    requires
        200 <= status < 300,
        json_text(body) == Some(json),
        json.get("status"@) == Some(JsonView::Text(said)),
        said != "0"@,
        json.get("count"@) == Some(JsonView::Text(number)),
        unsigned_value(number) == Some(count),
        json.get("geocodes"@) == Some(JsonView::Array(items)),
        forall|i: int| 0 <= i < items.len() ==> (#[trigger] items[i]) is Object,
        items.len() > 0,
        items[0].get("location"@) == Some(JsonView::Text(point)),
    ensures
        drive_next(
            DriveRoutesView::Start { to: address, api_key: key },
            HttpOutcomeView::Reply(status, body),
        ) == DriveStepView::Send(
            DriveRoutesView::Destination { from: point, api_key: key },
            geocode_request(address, key),
        ),
        drive_next(
            DriveRoutesView::Destination { from: origin, api_key: key },
            HttpOutcomeView::Reply(status, body),
        ) == DriveStepView::Send(DriveRoutesView::Routes, routes_request(origin, point, key)),
{
    a_geocode_holds_the_texts_of_its_object(items[0], point);
}

/// Where the reply lists no geocode, or the first has no location, the call has no
/// answer, whatever geocodes follow.
pub proof fn an_address_without_a_point_has_no_routes(
    status: u16,
    body: Seq<u8>,
    json: JsonView,
    said: Seq<char>,
    number: Seq<char>,
    count: u64,
    items: Seq<JsonView>,
    state: DriveRoutesView,
)
    requires
        200 <= status < 300,
        json_text(body) == Some(json),
        json.get("status"@) == Some(JsonView::Text(said)),
        said != "0"@,
        json.get("count"@) == Some(JsonView::Text(number)),
        unsigned_value(number) == Some(count),
        json.get("geocodes"@) == Some(JsonView::Array(items)),
        forall|i: int| 0 <= i < items.len() ==> (#[trigger] items[i]) is Object,
        items.len() == 0 || !(items[0].get("location"@) matches Some(JsonView::Text(_))),
        !(state is Routes),
    ensures
        drive_next(state, HttpOutcomeView::Reply(status, body)) == DriveStepView::Unanswerable,
{
}

/// The call for the routes between two addresses begins with the start, and keeps
/// the destination and the key for later; without a key nothing is asked for.
pub proof fn a_call_begins_with_its_start(
    from: Seq<char>,
    to: Seq<char>,
    key: Seq<char>,
    e: McpErrorView,
)
    ensures
        drive_start(from, to, Ok(key)) == DriveStepView::Send(
            DriveRoutesView::Start { to, api_key: key },
            geocode_request(from, key),
        ),
        drive_start(from, to, Err(e)) == DriveStepView::Done(Err(e)),
{
}

/// What the last request brings is what the call is answered with; a document that
/// is no answer to a request leaves the call without one.
pub proof fn the_last_request_answers_the_call(
    outcome: HttpOutcomeView,
    result: Result<GetDriveRoutesResponse, McpErrorView>,
    state: DriveRoutesView,
)
    ensures
        routes_result(outcome) == Some(result) ==> drive_next(DriveRoutesView::Routes, outcome)
            == DriveStepView::Done(result),
        routes_result(outcome) is None ==> drive_next(DriveRoutesView::Routes, outcome)
            == DriveStepView::Unanswerable,
        geocode_result(outcome) is None && !(state is Routes) ==> drive_next(state, outcome)
            == DriveStepView::Unanswerable,
{
}

/// The models of the answers show every field as it is, and every geocode in order.
pub proof fn an_answer_shows_its_fields(
    geocode: Geocode,
    response: GetGeocodeResponse,
    routes: GetDriveRoutesResponse,
)
    ensures
        geocode.formatted_address is None ==> geocode.deep_view().formatted_address is None,
        geocode.formatted_address matches Some(s) ==> geocode.deep_view().formatted_address
            == Some(s@),
        geocode.country is None ==> geocode.deep_view().country is None,
        geocode.country matches Some(s) ==> geocode.deep_view().country == Some(s@),
        geocode.province is None ==> geocode.deep_view().province is None,
        geocode.province matches Some(s) ==> geocode.deep_view().province == Some(s@),
        geocode.city is None ==> geocode.deep_view().city is None,
        geocode.city matches Some(s) ==> geocode.deep_view().city == Some(s@),
        geocode.city_code is None ==> geocode.deep_view().city_code is None,
        geocode.city_code matches Some(s) ==> geocode.deep_view().city_code == Some(s@),
        geocode.district is None ==> geocode.deep_view().district is None,
        geocode.district matches Some(s) ==> geocode.deep_view().district == Some(s@),
        geocode.street is None ==> geocode.deep_view().street is None,
        geocode.street matches Some(s) ==> geocode.deep_view().street == Some(s@),
        geocode.number is None ==> geocode.deep_view().number is None,
        geocode.number matches Some(s) ==> geocode.deep_view().number == Some(s@),
        geocode.adcode is None ==> geocode.deep_view().adcode is None,
        geocode.adcode matches Some(s) ==> geocode.deep_view().adcode == Some(s@),
        geocode.location is None ==> geocode.deep_view().location is None,
        geocode.location matches Some(s) ==> geocode.deep_view().location == Some(s@),
        geocode.level is None ==> geocode.deep_view().level is None,
        geocode.level matches Some(s) ==> geocode.deep_view().level == Some(s@),
        response.deep_view().count == response.count,
        response.deep_view().geocodes.len() == response.geocodes@.len(),
        forall|i: int|
            0 <= i < response.geocodes@.len() ==> #[trigger] response.deep_view().geocodes[i]
                == response.geocodes@[i].deep_view(),
        routes.deep_view().count == routes.count,
{
}

/// The models of how far a call has come, and of what it does next, show what it
/// keeps and what it sends or answers.
pub proof fn a_step_shows_its_parts(state: DriveRoutes, step: DriveStep)
    ensures
        state matches DriveRoutes::Start { to, api_key } ==> state@ == (DriveRoutesView::Start {
            to: to@,
            api_key: api_key@,
        }),
        state matches DriveRoutes::Destination { from, api_key } ==> state@ == (
        DriveRoutesView::Destination { from: from@, api_key: api_key@ }),
        state is Routes ==> state@ == DriveRoutesView::Routes,
        step matches DriveStep::Send(next, request) ==> step@ == DriveStepView::Send(
            next@,
            request@,
        ),
        step matches DriveStep::Done(Ok(response)) ==> step@ == DriveStepView::Done(Ok(response)),
        step matches DriveStep::Done(Err(e)) ==> step@ == DriveStepView::Done(Err(e@)),
        step is Unanswerable ==> step@ == DriveStepView::Unanswerable,
{
}

} // verus!
