//! Vector search in a Qdrant database.

use crate::config::{QdrantConfig, QdrantConfigView};
use crate::error::{internal_error, possible_answer, ErrorCode, McpError, McpErrorView};
use crate::http::{
    is_success, status_line, undecodable, Body, BodyView, HttpOutcome, HttpOutcomeView, HttpRequest,
    HttpRequestView, Method,
};
use crate::json::{
    copy_members, find_member, json_text, lemma_array_tree, lemma_object_tree,
    only_a_text_is_read_as_one, read_json, the_first_member_counts, Json, JsonNumber, JsonView,
};
use crate::text::{
    trim_end_slashes, trimming_is_unique, trimming_removes_end_slashes, without_end_slashes,
};
use vstd::prelude::*;

verus! {

/// A point that a vector search found. Its score and the numbers of its vector are
/// doubles, each given by its bits.
#[derive(Debug, PartialEq, Eq)]
pub struct QdrantSearchHit {
    pub score: u64,
    pub payload: Vec<(String, Json)>,
    pub vector: Vec<u64>,
}

/// The mathematical model of a `QdrantSearchHit`.
pub struct QdrantSearchHitView {
    pub score: u64,
    pub payload: Seq<(Seq<char>, JsonView)>,
    pub vector: Seq<u64>,
}

impl DeepView for QdrantSearchHit {
    type V = QdrantSearchHitView;

    open spec fn deep_view(&self) -> QdrantSearchHitView {
        QdrantSearchHitView {
            score: self.score,
            payload: self.payload.deep_view(),
            vector: self.vector@,
        }
    }
}

// ---------------------------------------------------------------------------
// The request.
// ---------------------------------------------------------------------------

/// The headers of a search: the key where there is one, and the content type.
pub open spec fn points_headers(api_key: Option<Seq<char>>) -> Seq<(Seq<char>, Seq<char>)> {
    let content = ("Content-Type"@, "application/json"@);
    match api_key {
        Some(key) => seq![("api-key"@, key), content],
        None => seq![content],
    }
}

/// The parameters of a search for the points nearest to `vector`. A number of the
/// vector, or a threshold, that is not finite becomes null.
pub open spec fn points_parameters(vector: Seq<u64>, limit: u64, score_threshold: u64) -> JsonView {
    JsonView::Object(
        seq![
            (
                "vector"@,
                JsonView::Array(
                    Seq::new(vector.len(), |i: int| JsonView::of_double(vector[i])),
                ),
            ),
            ("limit"@, JsonView::Number(JsonNumber::PosInt(limit))),
            ("with_payload"@, JsonView::Bool(true)),
            ("with_vector"@, JsonView::Bool(true)),
            ("score_threshold"@, JsonView::of_double(score_threshold)),
        ],
    )
}

/// The request for the points nearest to `vector`.
pub open spec fn points_request(
    config: QdrantConfigView,
    vector: Seq<u64>,
    limit: u64,
    score_threshold: u64,
) -> HttpRequestView {
    HttpRequestView {
        method: Method::Post,
        url: without_end_slashes(config.base_url) + "/collections/"@ + config.collection
            + "/points/search"@,
        headers: points_headers(config.api_key),
        query: Seq::empty(),
        body: BodyView::Json(points_parameters(vector, limit, score_threshold)),
    }
}

fn make_parameters(vector: &Vec<u64>, limit: u64, score_threshold: u64) -> (r: Json)
    ensures
        r@ == points_parameters(vector@, limit, score_threshold),
{
    let mut numbers: Vec<Json> = Vec::new();
    let mut i: usize = 0;
    while i < vector.len()
        invariant
            i <= vector@.len(),
            numbers.deep_view() == Seq::new(i as nat, |k: int| JsonView::of_double(vector@[k])),
        decreases vector.len() - i,
    {
        let ghost before = numbers.deep_view();
        numbers.push(Json::of_double(vector[i]));
        assert(numbers.deep_view() =~= before.push(JsonView::of_double(vector@[i as int])));
        i = i + 1;
    }
    proof {
        lemma_array_tree(numbers);
    }
    let mut members: Vec<(String, Json)> = Vec::new();
    members.push(("vector".to_owned(), Json::Array(numbers)));
    members.push(("limit".to_owned(), Json::Number(JsonNumber::PosInt(limit))));
    members.push(("with_payload".to_owned(), Json::Bool(true)));
    members.push(("with_vector".to_owned(), Json::Bool(true)));
    members.push(("score_threshold".to_owned(), Json::of_double(score_threshold)));
    proof {
        lemma_object_tree(members);
        assert(members.deep_view() =~= points_parameters(
            vector@,
            limit,
            score_threshold,
        )->Object_0);
    }
    Json::Object(members)
}

/// The request for the points nearest to `vector`.
pub fn ask_points(
    config: &QdrantConfig,
    vector: &Vec<u64>,
    limit: u64,
    score_threshold: u64,
) -> (r: HttpRequest)
    ensures
        r@ == points_request(config.deep_view(), vector@, limit, score_threshold),
{
    let mut headers: Vec<(String, String)> = Vec::new();
    match &config.api_key {
        Some(key) => {
            headers.push(("api-key".to_owned(), key.clone()));
        },
        None => {},
    }
    headers.push(("Content-Type".to_owned(), "application/json".to_owned()));
    let mut url = trim_end_slashes(config.base_url.as_str());
    url.append("/collections/");
    url.append(config.collection.as_str());
    url.append("/points/search");
    let r = HttpRequest {
        method: Method::Post,
        url,
        headers,
        query: Vec::new(),
        body: Body::Json(make_parameters(vector, limit, score_threshold)),
    };
    assert(r@.headers =~= points_headers(config.deep_view().api_key));
    assert(r@.query =~= Seq::empty());
    r
}

// ---------------------------------------------------------------------------
// The reply.
// ---------------------------------------------------------------------------

pub open spec fn all_numbers(items: Seq<JsonView>) -> bool {
    forall|i: int| 0 <= i < items.len() ==> (#[trigger] items[i]) is Number
}

/// Whether the document is a point: with a score, a payload and a vector.
pub open spec fn hit_shape(json: JsonView) -> bool {
    &&& json.get("score"@) matches Some(JsonView::Number(_))
    &&& json.get("payload"@) matches Some(JsonView::Object(_))
    &&& json.get("vector"@) matches Some(JsonView::Array(items))
    &&& all_numbers(items)
}

/// The point that a document describes.
pub open spec fn hit_of(json: JsonView) -> QdrantSearchHitView {
    let items = json.get("vector"@).unwrap()->Array_0;
    QdrantSearchHitView {
        score: json.get("score"@).unwrap()->Number_0.double(),
        payload: json.get("payload"@).unwrap()->Object_0,
        vector: Seq::new(items.len(), |i: int| items[i]->Number_0.double()),
    }
}

/// Whether the document is an answer to a search: a list of points, or a status
/// that tells the error, or neither.
pub open spec fn points_shape(json: JsonView) -> bool {
    match json.get("result"@) {
        Some(result) => {
            &&& result matches JsonView::Array(items)
            &&& forall|i: int| 0 <= i < items.len() ==> hit_shape(#[trigger] items[i])
        },
        None => match json.get("status"@) {
            Some(status) => status.text_of("error"@) is Some,
            None => true,
        },
    }
}

/// What the document comes to as the answer to a search.
pub open spec fn points_answer(json: JsonView) -> Result<Seq<QdrantSearchHitView>, McpErrorView> {
    match json.get("result"@) {
        Some(result) => {
            let items = result->Array_0;
            Ok(Seq::new(items.len(), |i: int| hit_of(items[i])))
        },
        None => match json.get("status"@) {
            Some(status) => Err(
                internal_error("Failed to search points. "@ + status.text_of("error"@).unwrap()),
            ),
            None => Err(internal_error("Failed to search points. "@)),
        },
    }
}

/// The error for a reply that does not report success.
pub open spec fn points_refused(line: Seq<char>) -> McpErrorView {
    internal_error("Failed to send search request to Qdrant server. Status: "@ + line)
}

/// What the outcome of a search comes to; `None` where the database sent a
/// document that is no answer.
pub open spec fn points_result(outcome: HttpOutcomeView) -> Option<
    Result<Seq<QdrantSearchHitView>, McpErrorView>,
> {
    match outcome {
        HttpOutcomeView::SendFailed(e) => Some(
            Err(internal_error("Failed to search points: "@ + e)),
        ),
        HttpOutcomeView::BodyFailed(status, e) => if is_success(status) {
            Some(Err(internal_error("Failed to search points: "@ + e)))
        } else {
            Some(Err(points_refused(status_line(status))))
        },
        HttpOutcomeView::Reply(status, body) => if is_success(status) {
            match json_text(body) {
                Some(json) => if points_shape(json) {
                    Some(points_answer(json))
                } else {
                    None
                },
                None => Some(Err(internal_error("Failed to search points: "@ + undecodable()))),
            }
        } else {
            Some(Err(points_refused(status_line(status))))
        },
    }
}

/// Reads the numbers of a list as doubles; `None` where one of the items is not a number.
fn read_numbers(items: &Vec<Json>) -> (r: Option<Vec<u64>>)
    ensures
        match r {
            Some(numbers) => {
                &&& all_numbers(items.deep_view())
                &&& numbers@ == Seq::new(
                    items@.len(),
                    |i: int| items.deep_view()[i]->Number_0.double(),
                )
            },
            None => !all_numbers(items.deep_view()),
        },
{
    let mut numbers: Vec<u64> = Vec::new();
    let mut i: usize = 0;
    while i < items.len()
        invariant
            i <= items@.len(),
            forall|k: int| 0 <= k < i ==> (#[trigger] items.deep_view()[k]) is Number,
            numbers@ == Seq::new(i as nat, |k: int| items.deep_view()[k]->Number_0.double()),
        decreases items.len() - i,
    {
        let ghost before = numbers@;
        assert(items.deep_view()[i as int] == items@[i as int]@);
        match &items[i] {
            Json::Number(n) => {
                numbers.push(n.as_double());
            },
            _ => {
                return None;
            },
        }
        assert(numbers@ =~= before.push(items.deep_view()[i as int]->Number_0.double()));
        i = i + 1;
    }
    Some(numbers)
}

/// Reads one point; `None` where the document is not one.
pub fn read_hit(json: &Json) -> (r: Option<QdrantSearchHit>)
    ensures
        r.deep_view() == (if hit_shape(json@) {
            Some(hit_of(json@))
        } else {
            None
        }),
{
    let score: u64 = match json.get("score") {
        Some(Json::Number(n)) => n.as_double(),
        _ => {
            return None;
        },
    };
    let payload = match json.get("payload") {
        Some(Json::Object(members)) => {
            proof {
                lemma_object_tree(*members);
            }
            copy_members(members)
        },
        _ => {
            return None;
        },
    };
    let vector = match json.get("vector") {
        Some(Json::Array(items)) => {
            proof {
                lemma_array_tree(*items);
            }
            match read_numbers(items) {
                Some(numbers) => numbers,
                None => {
                    return None;
                },
            }
        },
        _ => {
            return None;
        },
    };
    Some(QdrantSearchHit { score, payload, vector })
}

/// Reads the points of a list; `None` where one of the items is not a point.
fn read_hits(items: &Vec<Json>) -> (r: Option<Vec<QdrantSearchHit>>)
    ensures
        match r {
            Some(hits) => {
                &&& forall|i: int|
                    0 <= i < items@.len() ==> hit_shape(#[trigger] items.deep_view()[i])
                &&& hits.deep_view() == Seq::new(
                    items@.len(),
                    |i: int| hit_of(items.deep_view()[i]),
                )
            },
            None => exists|i: int|
                0 <= i < items@.len() && !hit_shape(#[trigger] items.deep_view()[i]),
        },
{
    let mut hits: Vec<QdrantSearchHit> = Vec::new();
    let mut i: usize = 0;
    while i < items.len()
        invariant
            i <= items@.len(),
            forall|k: int| 0 <= k < i ==> hit_shape(#[trigger] items.deep_view()[k]),
            hits.deep_view() == Seq::new(i as nat, |k: int| hit_of(items.deep_view()[k])),
        decreases items.len() - i,
    {
        let ghost before = hits.deep_view();
        assert(items.deep_view()[i as int] == items@[i as int]@);
        match read_hit(&items[i]) {
            Some(hit) => {
                hits.push(hit);
            },
            None => {
                return None;
            },
        }
        assert(hits.deep_view() =~= before.push(hit_of(items.deep_view()[i as int])));
        i = i + 1;
    }
    Some(hits)
}

/// Reads the answer to a search; `None` where the document is not one.
pub fn read_points_answer(json: &Json) -> (r: Option<Result<Vec<QdrantSearchHit>, McpError>>)
    ensures
        possible_answer(r) == (if points_shape(json@) {
            Some(points_answer(json@))
        } else {
            None
        }),
{
    match json.get("result") {
        Some(Json::Array(items)) => {
            proof {
                lemma_array_tree(*items);
            }
            match read_hits(items) {
                Some(hits) => Some(Ok(hits)),
                None => None,
            }
        },
        Some(_) => None,
        None => match json.get("status") {
            Some(status) => match status.get("error") {
                Some(Json::Text(error)) => Some(
                    Err(McpError::caused("Failed to search points. ", error.as_str())),
                ),
                _ => None,
            },
            None => Some(Err(McpError::internal("Failed to search points. "))),
        },
    }
}

/// The error for a reply whose status, as displayed, does not report success.
pub fn refuse_points(line: &str) -> (e: McpError)
    ensures
        e@ == points_refused(line@),
{
    McpError::caused("Failed to send search request to Qdrant server. Status: ", line)
}

/// What the outcome of a search comes to; `None` where the database sent a
/// document that is no answer.
pub fn read_points(outcome: &HttpOutcome) -> (r: Option<Result<Vec<QdrantSearchHit>, McpError>>)
    ensures
        possible_answer(r) == points_result(outcome@),
{
    match outcome {
        HttpOutcome::SendFailed(e) => Some(
            Err(McpError::caused("Failed to search points: ", e.as_str())),
        ),
        HttpOutcome::BodyFailed(status, e) => if status.is_success() {
            Some(Err(McpError::caused("Failed to search points: ", e.as_str())))
        } else {
            Some(Err(refuse_points(status.line().as_str())))
        },
        HttpOutcome::Reply(status, body) => if status.is_success() {
            match read_json(body.as_slice()) {
                Some(json) => read_points_answer(&json),
                None => Some(
                    Err(
                        McpError::caused(
                            "Failed to search points: ",
                            "error decoding response body",
                        ),
                    ),
                ),
            }
        } else {
            Some(Err(refuse_points(status.line().as_str())))
        },
    }
}

// ---------------------------------------------------------------------------
// The sources.
// ---------------------------------------------------------------------------

/// The source text of a point: the named member of its payload, where that is a
/// text.
pub open spec fn source_of(hit: QdrantSearchHitView, payload_source: Seq<char>) -> Option<
    Seq<char>,
> {
    JsonView::Object(hit.payload).text_of(payload_source)
}

/// The source texts of the points; `None` where one of them has none.
pub open spec fn sources_of(hits: Seq<QdrantSearchHitView>, payload_source: Seq<char>) -> Option<
    Seq<Seq<char>>,
> {
    if forall|i: int| 0 <= i < hits.len() ==> source_of(#[trigger] hits[i], payload_source) is Some {
        Some(Seq::new(hits.len(), |i: int| source_of(hits[i], payload_source).unwrap()))
    } else {
        None
    }
}

/// Takes the source texts from the points; `None` where one of them has none.
pub fn take_sources(hits: &Vec<QdrantSearchHit>, payload_source: &str) -> (r: Option<Vec<String>>)
    ensures
        r.deep_view() == sources_of(hits.deep_view(), payload_source@),
{
    let ghost all = hits.deep_view();
    let mut sources: Vec<String> = Vec::new();
    let mut i: usize = 0;
    while i < hits.len()
        invariant
            i <= hits@.len(),
            all == hits.deep_view(),
            forall|k: int| 0 <= k < i ==> source_of(#[trigger] all[k], payload_source@) is Some,
            sources.deep_view() == Seq::new(
                i as nat,
                |k: int| source_of(all[k], payload_source@).unwrap(),
            ),
        decreases hits.len() - i,
    {
        let ghost before = sources.deep_view();
        assert(all[i as int] == hits@[i as int].deep_view());
        match find_member(&hits[i].payload, payload_source) {
            Some(Json::Text(source)) => {
                sources.push(source.clone());
            },
            _ => {
                assert(source_of(all[i as int], payload_source@) is None);
                return None;
            },
        }
        assert(sources.deep_view() =~= before.push(
            source_of(all[i as int], payload_source@).unwrap(),
        ));
        i = i + 1;
    }
    assert(sources.deep_view() =~= sources_of(all, payload_source@).unwrap());
    Some(sources)
}

/// A slash more at the end of the address of the database changes no search.
pub proof fn end_slashes_of_the_address_do_not_count(
    config: QdrantConfigView,
    vector: Seq<u64>,
    limit: u64,
    score_threshold: u64,
)
    ensures
        points_request(
            QdrantConfigView { base_url: config.base_url.push('/'), ..config },
            vector,
            limit,
            score_threshold,
        ) == points_request(config, vector, limit, score_threshold),
{
    trimming_removes_end_slashes(config.base_url);
}

/// The search request has the whole vector in its body, number by number and in
/// order, with the limit, the threshold and the wish for payloads and vectors, and
/// nothing else.
pub proof fn the_request_holds_the_whole_vector(
    config: QdrantConfigView,
    vector: Seq<u64>,
    limit: u64,
    score_threshold: u64,
)
    ensures
        points_request(config, vector, limit, score_threshold).body matches BodyView::Json(body)
            && {
            &&& body matches JsonView::Object(members) && members.len() == 5
            &&& body.get("vector"@) matches Some(JsonView::Array(items)) && items.len()
                == vector.len() && forall|i: int|
                0 <= i < vector.len() ==> #[trigger] items[i] == JsonView::of_double(vector[i])
            &&& body.get("limit"@) == Some(JsonView::Number(JsonNumber::PosInt(limit)))
            &&& body.get("with_payload"@) == Some(JsonView::Bool(true))
            &&& body.get("with_vector"@) == Some(JsonView::Bool(true))
            &&& body.get("score_threshold"@) == Some(JsonView::of_double(score_threshold))
        },
{
    reveal_strlit("vector");
    reveal_strlit("limit");
    reveal_strlit("with_payload");
    reveal_strlit("with_vector");
    reveal_strlit("score_threshold");
    let members = points_parameters(vector, limit, score_threshold)->Object_0;
    assert(members[0].0.len() == 6 && members[1].0.len() == 5);
    assert(members[2].0.len() == 12 && members[3].0.len() == 11);
    the_first_member_counts(members, "vector"@, 0);
    the_first_member_counts(members, "limit"@, 1);
    the_first_member_counts(members, "with_payload"@, 2);
    the_first_member_counts(members, "with_vector"@, 3);
    the_first_member_counts(members, "score_threshold"@, 4);
}

/// The search request is posted to the configured collection of the database, as a
/// document and with the key where there is one.
pub proof fn the_request_goes_to_the_collection(
    config: QdrantConfigView,
    vector: Seq<u64>,
    limit: u64,
    score_threshold: u64,
    base: Seq<char>,
)
    requires
        base.is_prefix_of(config.base_url),
        base.len() > 0 ==> base.last() != '/',
        forall|i: int|
            base.len() <= i < config.base_url.len() ==> #[trigger] config.base_url[i] == '/',
    ensures
        ({
            let request = points_request(config, vector, limit, score_threshold);
            &&& request.method == Method::Post
            &&& request.url == base + "/collections/"@ + config.collection + "/points/search"@
            &&& request.query.len() == 0
            &&& config.api_key matches Some(key) ==> request.headers == seq![
                ("api-key"@, key),
                ("Content-Type"@, "application/json"@),
            ]
            &&& config.api_key is None ==> request.headers == seq![
                ("Content-Type"@, "application/json"@),
            ]
        }),
{
    trimming_is_unique(config.base_url, base);
}

/// A point has the score and the vector of its document, number by number and as
/// doubles, and its payload as it is.
pub proof fn a_point_is_what_its_document_describes(
    document: JsonView,
    score: JsonNumber,
    payload: Seq<(Seq<char>, JsonView)>,
    items: Seq<JsonView>,
)
    requires
        document.get("score"@) == Some(JsonView::Number(score)),
        document.get("payload"@) == Some(JsonView::Object(payload)),
        document.get("vector"@) == Some(JsonView::Array(items)),
        forall|i: int| 0 <= i < items.len() ==> (#[trigger] items[i]) is Number,
    ensures
        hit_shape(document),
        hit_of(document).score == score.double(),
        hit_of(document).payload == payload,
        hit_of(document).vector.len() == items.len(),
        forall|i: int|
            0 <= i < items.len() ==> (items[i] matches JsonView::Number(n)
                && #[trigger] hit_of(document).vector[i] == n.double()),
{
}

/// A document without a score, a payload or a vector of numbers is no point.
pub proof fn a_point_needs_its_parts(document: JsonView)
    requires
        hit_shape(document),
    ensures
        document.get("score"@) matches Some(JsonView::Number(_)),
        document.get("payload"@) matches Some(JsonView::Object(_)),
        document.get("vector"@) matches Some(JsonView::Array(items)) && forall|i: int|
            0 <= i < items.len() ==> (#[trigger] items[i]) is Number,
{
}

/// A successful reply with a list of points gives those points, all of them and in
/// their order.
pub proof fn a_search_finds_the_points_of_the_reply(
    status: u16,
    body: Seq<u8>,
    json: JsonView,
    items: Seq<JsonView>,
)
    requires
        200 <= status < 300,
        json_text(body) == Some(json),
        json.get("result"@) == Some(JsonView::Array(items)),
        forall|i: int| 0 <= i < items.len() ==> hit_shape(#[trigger] items[i]),
    ensures
        points_result(HttpOutcomeView::Reply(status, body)) matches Some(Ok(hits)) && hits.len()
            == items.len() && forall|i: int|
            0 <= i < items.len() ==> #[trigger] hits[i] == hit_of(items[i]),
{
}

/// Points come from nothing but the list of a successful reply.
pub proof fn points_come_from_the_reply(
    outcome: HttpOutcomeView,
    hits: Seq<QdrantSearchHitView>,
)
    requires
        points_result(outcome) == Some(Ok::<Seq<QdrantSearchHitView>, McpErrorView>(hits)),
    ensures
        ({
            &&& outcome matches HttpOutcomeView::Reply(status, body)
            &&& 200 <= status < 300
            &&& json_text(body) matches Some(json)
            &&& json.get("result"@) matches Some(JsonView::Array(items))
            &&& hits.len() == items.len()
            &&& forall|i: int| 0 <= i < items.len() ==> hit_shape(#[trigger] items[i])
        }),
{
}

/// Every other outcome of a search is told in an error that says what went wrong.
pub proof fn a_search_that_fails_says_why(status: u16, body: Seq<u8>, e: Seq<char>, json: JsonView)
    ensures
        points_result(HttpOutcomeView::SendFailed(e)) == Some(
            Err::<Seq<QdrantSearchHitView>, _>(
                McpErrorView {
                    code: ErrorCode::InternalError,
                    message: "Failed to search points: "@ + e,
                },
            ),
        ),
        200 <= status < 300 ==> points_result(HttpOutcomeView::BodyFailed(status, e))
            == points_result(HttpOutcomeView::SendFailed(e)),
        !(200 <= status < 300) ==> {
            let refused = Some(
                Err::<Seq<QdrantSearchHitView>, _>(
                    McpErrorView {
                        code: ErrorCode::InternalError,
                        message: "Failed to send search request to Qdrant server. Status: "@
                            + status_line(status),
                    },
                ),
            );
            &&& points_result(HttpOutcomeView::BodyFailed(status, e)) == refused
            &&& points_result(HttpOutcomeView::Reply(status, body)) == refused
        },
        200 <= status < 300 && json_text(body) is None ==> points_result(
            HttpOutcomeView::Reply(status, body),
        ) == points_result(HttpOutcomeView::SendFailed("error decoding response body"@)),
        200 <= status < 300 && json_text(body) == Some(json) && json.get("result"@) is Some
            ==> !(points_result(HttpOutcomeView::Reply(status, body)) matches Some(Err(_))),
        200 <= status < 300 && json_text(body) == Some(json) && json.get("result"@) is None ==> {
            let found = points_result(HttpOutcomeView::Reply(status, body));
            match json.get("status"@) {
                Some(told) => match told.get("error"@) {
                    Some(JsonView::Text(reason)) => found == Some(
                        Err::<Seq<QdrantSearchHitView>, _>(
                            McpErrorView {
                                code: ErrorCode::InternalError,
                                message: "Failed to search points. "@ + reason,
                            },
                        ),
                    ),
                    _ => found is None,
                },
                None => found == Some(
                    Err::<Seq<QdrantSearchHitView>, _>(
                        McpErrorView {
                            code: ErrorCode::InternalError,
                            message: "Failed to search points. "@,
                        },
                    ),
                ),
            }
        },
{
}

/// The sources are the texts that the payloads hold under the configured name, one
/// for each point and in their order; where a payload holds no such text there are
/// none.
pub proof fn every_point_gives_its_source(
    hits: Seq<QdrantSearchHitView>,
    payload_source: Seq<char>,
    sources: Seq<Seq<char>>,
)
    ensures
        sources_of(hits, payload_source) == Some(sources) <==> sources.len() == hits.len()
            && forall|i: int|
            0 <= i < hits.len() ==> JsonView::Object((#[trigger] hits[i]).payload).get(
                payload_source,
            ) == Some(JsonView::Text(sources[i])),
{
    if sources.len() == hits.len() && forall|i: int|
        0 <= i < hits.len() ==> JsonView::Object((#[trigger] hits[i]).payload).get(payload_source)
            == Some(JsonView::Text(sources[i])) {
        assert forall|i: int| 0 <= i < hits.len() implies source_of(#[trigger] hits[i], payload_source)
            == Some(sources[i]) by {
            only_a_text_is_read_as_one(
                JsonView::Object(hits[i].payload),
                payload_source,
                sources[i],
            );
        }
        assert(sources =~= sources_of(hits, payload_source).unwrap());
    }
    if sources_of(hits, payload_source) == Some(sources) {
        assert forall|i: int| 0 <= i < hits.len() implies JsonView::Object(
            (#[trigger] hits[i]).payload,
        ).get(payload_source) == Some(JsonView::Text(sources[i])) by {
            assert(source_of(hits[i], payload_source) == Some(sources[i]));
            only_a_text_is_read_as_one(
                JsonView::Object(hits[i].payload),
                payload_source,
                sources[i],
            );
        }
    }
}

/// The model of a point shows its score, its payload member by member, and its
/// vector.
pub proof fn a_point_shows_its_parts(hit: QdrantSearchHit)
    ensures
        hit.deep_view().score == hit.score,
        hit.deep_view().vector == hit.vector@,
        hit.deep_view().payload.len() == hit.payload@.len(),
        forall|i: int|
            0 <= i < hit.payload@.len() ==> (#[trigger] hit.deep_view().payload[i]).0
                == hit.payload@[i].0@ && hit.deep_view().payload[i].1 == hit.payload@[i].1@,
{
}

} // verus!
