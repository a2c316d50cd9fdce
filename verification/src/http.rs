//! The requests that the servers send to other services, and what comes back.

use crate::json::{Json, JsonView};
use crate::text::decimal_form;
use reqwest::StatusCode;
use vstd::prelude::*;

verus! {

#[derive(Clone, Copy, Debug, PartialEq, Eq, Structural)]
pub enum Method {
    Get,
    Post,
}

/// The body of a request.
#[derive(Debug, PartialEq, Eq)]
pub enum Body {
    Empty,
    /// A document, to be sent as its JSON text.
    Json(Json),
    /// JSON text.
    Encoded(Vec<u8>),
}

/// The mathematical model of a `Body`.
pub enum BodyView {
    Empty,
    Json(JsonView),
    Encoded(Seq<u8>),
}

/// A request: its headers, and the parameters of its query, in the order in which
/// they are set.
#[derive(Debug, PartialEq, Eq)]
pub struct HttpRequest {
    pub method: Method,
    pub url: String,
    pub headers: Vec<(String, String)>,
    pub query: Vec<(String, String)>,
    pub body: Body,
}

/// The mathematical model of an `HttpRequest`.
pub struct HttpRequestView {
    pub method: Method,
    pub url: Seq<char>,
    pub headers: Seq<(Seq<char>, Seq<char>)>,
    pub query: Seq<(Seq<char>, Seq<char>)>,
    pub body: BodyView,
}

impl View for Body {
    type V = BodyView;

    open spec fn view(&self) -> BodyView {
        match self {
            Body::Empty => BodyView::Empty,
            Body::Json(json) => BodyView::Json(json@),
            Body::Encoded(bytes) => BodyView::Encoded(bytes@),
        }
    }
}

impl View for HttpRequest {
    type V = HttpRequestView;

    open spec fn view(&self) -> HttpRequestView {
        HttpRequestView {
            method: self.method,
            url: self.url@,
            headers: self.headers.deep_view(),
            query: self.query.deep_view(),
            body: self.body@,
        }
    }
}

impl DeepView for HttpRequest {
    type V = HttpRequestView;

    open spec fn deep_view(&self) -> HttpRequestView {
        self@
    }
}

/// The status code of a reply: a number of three digits.
#[derive(Clone, Copy, Debug, PartialEq, Eq)]
pub struct Status {
    code: u16,
}

/// Whether a reply can have the status code.
pub open spec fn is_status(code: u16) -> bool {
    100 <= code <= 999
}

/// Whether a status code reports success.
pub open spec fn is_success(code: u16) -> bool {
    200 <= code < 300
}

impl View for Status {
    type V = u16;

    closed spec fn view(&self) -> u16 {
        self.code
    }
}

/// A status code with its reason phrase, as `reqwest::StatusCode` displays it.
pub uninterp spec fn status_line(code: u16) -> Seq<char>;

/// How `reqwest::StatusCode` displays the code. What is believed of it: the text
/// depends on the code alone, and is the code in decimal, a space, and a phrase.
#[verifier::external_body]
fn display_status(code: u16) -> (r: String)
    requires
        is_status(code),
    ensures
        r@ == status_line(code),
        decimal_form(code as nat).push(' ').is_prefix_of(r@),
{
    StatusCode::from_u16(code).unwrap().to_string()
}

impl Status {
    #[verifier::type_invariant]
    spec fn valid(self) -> bool {
        is_status(self.code)
    }

    /// The status with the given code; `None` where no reply can have that code.
    pub fn from_u16(code: u16) -> (r: Option<Status>)
        ensures
            match r {
                Some(status) => is_status(code) && status@ == code,
                None => !is_status(code),
            },
    {
        if 100 <= code && code <= 999 {
            Some(Status { code })
        } else {
            None
        }
    }

    pub fn is_success(&self) -> (r: bool)
        ensures
            r == is_success(self@),
    {
        200 <= self.code && self.code < 300
    }

    /// The code with its reason phrase.
    pub fn line(&self) -> (r: String)
        ensures
            r@ == status_line(self@),
            decimal_form(self@ as nat).push(' ').is_prefix_of(r@),
    {
        proof {
            use_type_invariant(self);
        }
        display_status(self.code)
    }
}

/// What became of a request. The texts are those of the client's errors.
#[derive(Debug, Clone, PartialEq, Eq)]
pub enum HttpOutcome {
    /// No reply arrived.
    SendFailed(String),
    /// A reply arrived, but not the whole of its body.
    BodyFailed(Status, String),
    /// The reply with its body.
    Reply(Status, Vec<u8>),
}

/// The mathematical model of an `HttpOutcome`.
pub enum HttpOutcomeView {
    SendFailed(Seq<char>),
    BodyFailed(u16, Seq<char>),
    Reply(u16, Seq<u8>),
}

impl View for HttpOutcome {
    type V = HttpOutcomeView;

    open spec fn view(&self) -> HttpOutcomeView {
        match self {
            HttpOutcome::SendFailed(e) => HttpOutcomeView::SendFailed(e@),
            HttpOutcome::BodyFailed(status, e) => HttpOutcomeView::BodyFailed(status@, e@),
            HttpOutcome::Reply(status, body) => HttpOutcomeView::Reply(status@, body@),
        }
    }
}

/// How the HTTP client words that a body is not what was to be read from it.
pub open spec fn undecodable() -> Seq<char> {
    "error decoding response body"@
}

/// A status is a number that takes three digits to write, and reports success where
/// the first of them is a two.
pub proof fn success_is_told_by_the_first_digit(code: u16)
    ensures
        is_status(code) <==> decimal_form(code as nat).len() == 3,
        is_success(code) <==> is_status(code) && decimal_form(code as nat)[0] == '2',
{
    reveal_with_fuel(decimal_form, 6);
    let n = code as nat;
    assert(n / 10 / 10 == n / 100);
    assert(n / 100 / 10 == n / 1000);
    assert(n / 1000 / 10 == n / 10000);
    let first = ('0' as nat + (n / 100) % 10) as char;
    assert(first as nat == '0' as nat + (n / 100) % 10);
}

/// The model of a request shows its method, its address, every header and every
/// parameter in order, and its body.
pub proof fn a_request_shows_its_parts(r: HttpRequest)
    ensures
        r@.method == r.method,
        r@.url == r.url@,
        r@.headers.len() == r.headers@.len(),
        forall|i: int|
            0 <= i < r.headers@.len() ==> (#[trigger] r@.headers[i]).0 == r.headers@[i].0@
                && r@.headers[i].1 == r.headers@[i].1@,
        r@.query.len() == r.query@.len(),
        forall|i: int|
            0 <= i < r.query@.len() ==> (#[trigger] r@.query[i]).0 == r.query@[i].0@
                && r@.query[i].1 == r.query@[i].1@,
        r.body is Empty ==> r@.body == BodyView::Empty,
        r.body matches Body::Json(json) ==> r@.body == BodyView::Json(json@),
        r.body matches Body::Encoded(bytes) ==> r@.body == BodyView::Encoded(bytes@),
        r.deep_view() == r@,
{
}

/// The model of what became of a request shows the status and the text or the
/// bytes that came.
pub proof fn an_outcome_shows_its_parts(outcome: HttpOutcome)
    ensures
        outcome matches HttpOutcome::SendFailed(e) ==> outcome@ == HttpOutcomeView::SendFailed(e@),
        outcome matches HttpOutcome::BodyFailed(status, e) ==> outcome@
            == HttpOutcomeView::BodyFailed(status@, e@),
        outcome matches HttpOutcome::Reply(status, body) ==> outcome@ == HttpOutcomeView::Reply(
            status@,
            body@,
        ),
{
}

} // verus!
