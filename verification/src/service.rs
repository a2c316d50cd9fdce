//! Calls of a model service: the embedding of a query, and the keywords that a
//! chat model finds in it.

use crate::config::{ServiceConfig, ServiceConfigView};
use crate::error::{answer, internal_error, possible_answer, ErrorCode, McpError, McpErrorView};
use crate::http::{
    undecodable, Body, BodyView, HttpOutcome, HttpOutcomeView, HttpRequest, HttpRequestView, Method,
};
use crate::json::{json_text, only_a_text_is_read_as_one, JsonView};
use crate::text::{
    appended, trim_end_slashes, trimming_is_unique, trimming_removes_end_slashes,
    without_end_slashes,
};
use endpoints::chat::{
    ChatCompletionObject, ChatCompletionRequestBuilder, ChatCompletionRequestMessage,
    ChatCompletionUserMessageContent,
};
use endpoints::embeddings::{EmbeddingRequest, EmbeddingsResponse, InputText};
use vstd::prelude::*;

verus! {

// ---------------------------------------------------------------------------
// The requests.
// ---------------------------------------------------------------------------

/// The headers of a call: its content type, and the key where there is one.
pub open spec fn service_headers(api_key: Option<Seq<char>>) -> Seq<(Seq<char>, Seq<char>)> {
    let content = ("content-type"@, "application/json"@);
    match api_key {
        Some(key) => seq![content, ("authorization"@, key)],
        None => seq![content],
    }
}

/// A call of a model service. Slashes at the end of its address do not count.
pub open spec fn service_request(
    service: ServiceConfigView,
    path: Seq<char>,
    body: Seq<u8>,
) -> HttpRequestView {
    HttpRequestView {
        method: Method::Post,
        url: without_end_slashes(service.url) + path,
        headers: service_headers(service.api_key),
        query: Seq::empty(),
        body: BodyView::Encoded(body),
    }
}

fn call_service(service: &ServiceConfig, path: &str, body: Vec<u8>) -> (r: HttpRequest)
    ensures
        r@ == service_request(service.deep_view(), path@, body@),
{
    let mut headers: Vec<(String, String)> = Vec::new();
    headers.push(("content-type".to_owned(), "application/json".to_owned()));
    match &service.api_key {
        Some(key) => {
            headers.push(("authorization".to_owned(), key.clone()));
        },
        None => {},
    }
    let r = HttpRequest {
        method: Method::Post,
        url: appended(trim_end_slashes(service.url.as_str()).as_str(), path),
        headers,
        query: Vec::new(),
        body: Body::Encoded(body),
    };
    assert(r@.headers =~= service_headers(service.deep_view().api_key));
    assert(r@.query =~= Seq::empty());
    r
}

// ---------------------------------------------------------------------------
// Embeddings.
// ---------------------------------------------------------------------------

/// The JSON text of the `endpoints::embeddings::EmbeddingRequest` that asks for the
/// embedding of one text and sets nothing else.
pub uninterp spec fn embedding_body(input: Seq<char>) -> Seq<u8>;

/// The document that asks for the embedding of one text.
pub open spec fn embedding_document(input: Seq<char>) -> JsonView {
    JsonView::Object(seq![("input"@, JsonView::Text(input))])
}

/// `serde_json::to_vec` of an `endpoints::embeddings::EmbeddingRequest` for one
/// text. What is believed of it: the bytes depend on the text alone, and read as a
/// document they are an object with the one member `input`, the text.
#[verifier::external_body]
fn encode_embedding_request(input: &str) -> (r: Vec<u8>)
    ensures
        r@ == embedding_body(input@),
        json_text(r@) == Some(embedding_document(input@)),
{
    let request = EmbeddingRequest {
        model: None,
        input: InputText::String(input.to_string()),
        encoding_format: None,
        user: None,
    };
    serde_json::to_vec(&request).unwrap()
}

/// The embeddings that `serde_json::from_slice` reads from the bytes of an
/// `endpoints::embeddings::EmbeddingsResponse`, each number as the bits of its
/// double; or the text of its error.
pub uninterp spec fn embeddings_text(bytes: Seq<u8>) -> Result<Seq<Seq<u64>>, Seq<char>>;

/// The model of what reading embeddings gives.
pub open spec fn embeddings_read(r: Result<Vec<Vec<u64>>, String>) -> Result<
    Seq<Seq<u64>>,
    Seq<char>,
> {
    match r {
        Ok(embeddings) => Ok(embeddings.deep_view()),
        Err(e) => Err(e@),
    }
}

/// `serde_json::from_slice` for an `endpoints::embeddings::EmbeddingsResponse`,
/// of which the embeddings are kept. What is believed of it: they, or the text of
/// the error, depend on the bytes alone.
#[verifier::external_body]
fn parse_embeddings(bytes: &[u8]) -> (r: Result<Vec<Vec<u64>>, String>)
    ensures
        embeddings_read(r) == embeddings_text(bytes@),
{
    match serde_json::from_slice::<EmbeddingsResponse>(bytes) {
        Ok(response) => Ok(
            response.data.into_iter().map(|item| item.embedding.into_iter().map(|x| x.to_bits()).collect()).collect(),
        ),
        Err(e) => Err(e.to_string()),
    }
}

/// The request for the embedding of a query.
pub open spec fn embedding_request(
    service: Option<ServiceConfigView>,
    query: Seq<char>,
) -> Result<HttpRequestView, McpErrorView> {
    match service {
        Some(service) => Ok(service_request(service, "/v1/embeddings"@, embedding_body(query))),
        None => Err(internal_error("Embedding service URL is not configured"@)),
    }
}

/// Whether the body of the request for the embedding of a query is a document with
/// the query as its input.
pub open spec fn asks_for_embedding(query: Seq<char>) -> bool {
    json_text(embedding_body(query)) == Some(embedding_document(query))
}

/// The first of the embeddings that were read.
pub open spec fn first_embedding(read: Result<Seq<Seq<u64>>, Seq<char>>) -> Result<
    Seq<u64>,
    McpErrorView,
> {
    match read {
        Err(e) => Err(internal_error("Failed to parse embeddings response: "@ + e)),
        Ok(embeddings) => if embeddings.len() > 0 {
            Ok(embeddings[0])
        } else {
            Err(internal_error("No embeddings returned"@))
        },
    }
}

/// The embedding that the outcome of the request gives. The status of the reply
/// does not count.
pub open spec fn embedding_result(outcome: HttpOutcomeView) -> Result<Seq<u64>, McpErrorView> {
    match outcome {
        HttpOutcomeView::SendFailed(e) => Err(
            internal_error("Failed to send the embedding request: "@ + e),
        ),
        HttpOutcomeView::BodyFailed(_, e) => first_embedding(Err(e)),
        HttpOutcomeView::Reply(_, body) => first_embedding(embeddings_text(body)),
    }
}

/// The request for the embedding of a query. Its body is a document with the query
/// as its input.
pub fn ask_embedding(service: &Option<ServiceConfig>, query: &str) -> (r: Result<
    HttpRequest,
    McpError,
>)
    ensures
        answer(r) == embedding_request(service.deep_view(), query@),
        r is Ok ==> asks_for_embedding(query@),
{
    match service {
        Some(service) => Ok(
            call_service(service, "/v1/embeddings", encode_embedding_request(query)),
        ),
        None => Err(McpError::internal("Embedding service URL is not configured")),
    }
}

/// Takes the first of the embeddings that were read.
pub fn take_first_embedding(read: Result<Vec<Vec<u64>>, String>) -> (r: Result<
    Vec<u64>,
    McpError,
>)
    ensures
        answer(r) == first_embedding(embeddings_read(read)),
{
    match read {
        Err(e) => Err(McpError::caused("Failed to parse embeddings response: ", e.as_str())),
        Ok(embeddings) => if embeddings.len() > 0 {
            let first = embeddings[0].clone();
            assert(first.deep_view() =~= embeddings.deep_view()[0]);
            Ok(first)
        } else {
            Err(McpError::internal("No embeddings returned"))
        },
    }
}

/// The embedding that the outcome of the request gives.
pub fn read_embedding(outcome: &HttpOutcome) -> (r: Result<Vec<u64>, McpError>)
    ensures
        answer(r) == embedding_result(outcome@),
{
    match outcome {
        HttpOutcome::SendFailed(e) => Err(
            McpError::caused("Failed to send the embedding request: ", e.as_str()),
        ),
        HttpOutcome::BodyFailed(_, e) => take_first_embedding(Err(e.clone())),
        HttpOutcome::Reply(_, body) => take_first_embedding(parse_embeddings(body.as_slice())),
    }
}

// ---------------------------------------------------------------------------
// Keywords.
// ---------------------------------------------------------------------------

/// The text as the pretty debug format of `std` writes it.
pub uninterp spec fn debug_form(text: Seq<char>) -> Seq<char>;

/// The pretty debug format of `std` for a text. What is believed of it: the result
/// depends on the text alone.
#[verifier::external_body]
fn debug_text(text: &str) -> (r: String)
    ensures
        r@ == debug_form(text@),
{
    format!("{text:#?}")
}

/// The JSON text of the `endpoints::chat::ChatCompletionRequest` that holds one
/// user message and is as the builder makes it otherwise.
pub uninterp spec fn chat_body(message: Seq<char>) -> Seq<u8>;

/// Whether there is a document, and it is a chat request of one user message.
pub open spec fn is_chat_document(json: Option<JsonView>, message: Seq<char>) -> bool {
    &&& json is Some
    &&& json.unwrap().get("messages"@) matches Some(JsonView::Array(messages))
    &&& messages.len() == 1
    &&& messages[0].text_of("role"@) == Some("user"@)
    &&& messages[0].text_of("content"@) == Some(message)
}

/// `serde_json::to_vec` of the request that
/// `endpoints::chat::ChatCompletionRequestBuilder` builds from one user message.
/// What is believed of it: the bytes depend on the message alone, and read as a
/// document their one message is that of the user.
#[verifier::external_body]
fn encode_chat_request(message: String) -> (r: Vec<u8>)
    ensures
        r@ == chat_body(message@),
        is_chat_document(json_text(r@), message@),
{
    let user_message = ChatCompletionRequestMessage::new_user_message(
        ChatCompletionUserMessageContent::Text(message),
        None,
    );
    serde_json::to_vec(&ChatCompletionRequestBuilder::new(&[user_message]).build()).unwrap()
}

/// The contents of the choices that `serde_json::from_slice` reads from the bytes
/// of an `endpoints::chat::ChatCompletionObject`; `None` where it refuses them.
pub uninterp spec fn chat_text(bytes: Seq<u8>) -> Option<Seq<Option<Seq<char>>>>;

/// `serde_json::from_slice` for an `endpoints::chat::ChatCompletionObject`, of
/// which the contents of the choices are kept. What is believed of it: whether it
/// accepts the bytes, and the contents, depend on the bytes alone.
#[verifier::external_body]
fn parse_chat(bytes: &[u8]) -> (r: Option<Vec<Option<String>>>)
    ensures
        r.deep_view() == chat_text(bytes@),
{
    match serde_json::from_slice::<ChatCompletionObject>(bytes) {
        Ok(object) => Some(object.choices.into_iter().map(|c| c.message.content).collect()),
        Err(_) => None,
    }
}

/// The instruction that the chat model gets, with the query as `quoted` writes it.
pub open spec fn keyword_prompt(quoted: Seq<char>) -> Seq<char> {
    "You are a multilingual keyword extractor. Your task is to extract the most relevant and concise keywords or key phrases from the given user query. The keywords should satisfying the following requirements:\n- Detect the language of the query automatically.\n- Return 3 to 7 keywords or keyphrases that best represent the query's core intent.\n- Keep the extracted keywords in the **original language** (do not translate).\n- Include **multi-word expressions** if they convey meaningful concepts.\n- The keywords should be separated by spaces.\n- Avoid stop words, filler words, or overly generic terms.\n\n### Input Query\n"@
        + quoted
}

/// The request for the keywords of a query.
pub open spec fn keyword_request(service: ServiceConfigView, query: Seq<char>) -> HttpRequestView {
    service_request(
        service,
        "/v1/chat/completions"@,
        chat_body(keyword_prompt(debug_form(query))),
    )
}

/// Whether the body of the request for the keywords of a query is a chat request
/// with the instruction as its one message.
pub open spec fn asks_for_keywords(query: Seq<char>) -> bool {
    let prompt = keyword_prompt(debug_form(query));
    is_chat_document(json_text(chat_body(prompt)), prompt)
}

/// The keywords that the choices of the chat model give: the content of the first.
pub open spec fn chosen_keywords(choices: Option<Seq<Option<Seq<char>>>>) -> Option<
    Result<Seq<char>, McpErrorView>,
> {
    match choices {
        None => Some(
            Err(internal_error("Failed to parse the chat response: "@ + undecodable())),
        ),
        Some(contents) => if contents.len() > 0 && contents[0] is Some {
            Some(Ok(contents[0].unwrap()))
        } else {
            None
        },
    }
}

/// The keywords that the outcome of the request gives; `None` where the model
/// gave no content.
pub open spec fn keywords_result(outcome: HttpOutcomeView) -> Option<
    Result<Seq<char>, McpErrorView>,
> {
    match outcome {
        HttpOutcomeView::SendFailed(e) => Some(
            Err(internal_error("Failed to send the chat request: "@ + e)),
        ),
        HttpOutcomeView::BodyFailed(_, e) => Some(
            Err(internal_error("Failed to parse the chat response: "@ + e)),
        ),
        HttpOutcomeView::Reply(_, body) => chosen_keywords(chat_text(body)),
    }
}

/// The instruction that the chat model gets.
pub fn make_keyword_prompt(quoted: &str) -> (r: String)
    ensures
        r@ == keyword_prompt(quoted@),
{
    appended(
        "You are a multilingual keyword extractor. Your task is to extract the most relevant and concise keywords or key phrases from the given user query. The keywords should satisfying the following requirements:\n- Detect the language of the query automatically.\n- Return 3 to 7 keywords or keyphrases that best represent the query's core intent.\n- Keep the extracted keywords in the **original language** (do not translate).\n- Include **multi-word expressions** if they convey meaningful concepts.\n- The keywords should be separated by spaces.\n- Avoid stop words, filler words, or overly generic terms.\n\n### Input Query\n",
        quoted,
    )
}

/// The request for the keywords of a query. Its body is a chat request with the
/// instruction as its message.
pub fn ask_keywords(service: &ServiceConfig, query: &str) -> (r: HttpRequest)
    ensures
        r@ == keyword_request(service.deep_view(), query@),
        asks_for_keywords(query@),
{
    let prompt = make_keyword_prompt(debug_text(query).as_str());
    call_service(service, "/v1/chat/completions", encode_chat_request(prompt))
}

/// The keywords that the choices of the chat model give.
pub fn choose_keywords(choices: &Option<Vec<Option<String>>>) -> (r: Option<
    Result<String, McpError>,
>)
    ensures
        possible_answer(r) == chosen_keywords(choices.deep_view()),
{
    match choices {
        None => Some(
            Err(
                McpError::caused(
                    "Failed to parse the chat response: ",
                    "error decoding response body",
                ),
            ),
        ),
        Some(contents) => {
            if contents.len() == 0 {
                return None;
            }
            assert(contents.deep_view()[0] == contents@[0].deep_view());
            match &contents[0] {
                Some(content) => Some(Ok(content.clone())),
                None => None,
            }
        },
    }
}

/// The keywords that the outcome of the request gives; `None` where the model
/// gave no content.
pub fn read_keywords(outcome: &HttpOutcome) -> (r: Option<Result<String, McpError>>)
    ensures
        possible_answer(r) == keywords_result(outcome@),
{
    match outcome {
        HttpOutcome::SendFailed(e) => Some(
            Err(McpError::caused("Failed to send the chat request: ", e.as_str())),
        ),
        HttpOutcome::BodyFailed(_, e) => Some(
            Err(McpError::caused("Failed to parse the chat response: ", e.as_str())),
        ),
        HttpOutcome::Reply(_, body) => choose_keywords(&parse_chat(body.as_slice())),
    }
}

/// A slash more at the end of the address of a service changes no call of it.
pub proof fn end_slashes_do_not_count(service: ServiceConfigView, path: Seq<char>, body: Seq<u8>)
    ensures
        service_request(
            ServiceConfigView { url: service.url.push('/'), ..service },
            path,
            body,
        ) == service_request(service, path, body),
{
    trimming_removes_end_slashes(service.url);
}

proof fn lemma_cut(s: Seq<char>, i: int, j: int)
    requires
        0 <= i <= j <= s.len(),
    ensures
        s.subrange(0, i) + s.subrange(i, j) == s.subrange(0, j),
        s.subrange(0, s.len() as int) == s,
{
    assert(s.subrange(0, i) + s.subrange(i, j) =~= s.subrange(0, j));
    assert(s.subrange(0, s.len() as int) =~= s);
}

/// The instruction tells the chat model its task, then each of the six requirements
/// on the keywords, that they are not to be translated among them, and ends with the
/// query; it tells nothing else.
pub proof fn the_instruction_states_each_requirement(quoted: Seq<char>)
    ensures
        keyword_prompt(quoted) == "You are a multilingual keyword extractor. Your task is to extract the most relevant and concise keywords or key phrases from the given user query. The keywords should satisfying the following requirements:\n"@
            + "- Detect the language of the query automatically.\n"@
            + "- Return 3 to 7 keywords or keyphrases that best represent the query's core intent.\n"@
            + "- Keep the extracted keywords in the **original language** (do not translate).\n"@
            + "- Include **multi-word expressions** if they convey meaningful concepts.\n"@
            + "- The keywords should be separated by spaces.\n"@
            + "- Avoid stop words, filler words, or overly generic terms.\n"@
            + "\n### Input Query\n"@
            + quoted,
{
    reveal_strlit("You are a multilingual keyword extractor. Your task is to extract the most relevant and concise keywords or key phrases from the given user query. The keywords should satisfying the following requirements:\n- Detect the language of the query automatically.\n- Return 3 to 7 keywords or keyphrases that best represent the query's core intent.\n- Keep the extracted keywords in the **original language** (do not translate).\n- Include **multi-word expressions** if they convey meaningful concepts.\n- The keywords should be separated by spaces.\n- Avoid stop words, filler words, or overly generic terms.\n\n### Input Query\n");
    reveal_strlit("You are a multilingual keyword extractor. Your task is to extract the most relevant and concise keywords or key phrases from the given user query. The keywords should satisfying the following requirements:\n");
    reveal_strlit("- Detect the language of the query automatically.\n");
    reveal_strlit("- Return 3 to 7 keywords or keyphrases that best represent the query's core intent.\n");
    reveal_strlit("- Keep the extracted keywords in the **original language** (do not translate).\n");
    reveal_strlit("- Include **multi-word expressions** if they convey meaningful concepts.\n");
    reveal_strlit("- The keywords should be separated by spaces.\n");
    reveal_strlit("- Avoid stop words, filler words, or overly generic terms.\n");
    reveal_strlit("\n### Input Query\n");
    let whole = "You are a multilingual keyword extractor. Your task is to extract the most relevant and concise keywords or key phrases from the given user query. The keywords should satisfying the following requirements:\n- Detect the language of the query automatically.\n- Return 3 to 7 keywords or keyphrases that best represent the query's core intent.\n- Keep the extracted keywords in the **original language** (do not translate).\n- Include **multi-word expressions** if they convey meaningful concepts.\n- The keywords should be separated by spaces.\n- Avoid stop words, filler words, or overly generic terms.\n\n### Input Query\n"@;
    assert(whole.subrange(0, 206) =~= "You are a multilingual keyword extractor. Your task is to extract the most relevant and concise keywords or key phrases from the given user query. The keywords should satisfying the following requirements:\n"@);
    assert(whole.subrange(206, 256) =~= "- Detect the language of the query automatically.\n"@);
    assert(whole.subrange(256, 340) =~= "- Return 3 to 7 keywords or keyphrases that best represent the query's core intent.\n"@);
    assert(whole.subrange(340, 419) =~= "- Keep the extracted keywords in the **original language** (do not translate).\n"@);
    assert(whole.subrange(419, 492) =~= "- Include **multi-word expressions** if they convey meaningful concepts.\n"@);
    assert(whole.subrange(492, 538) =~= "- The keywords should be separated by spaces.\n"@);
    assert(whole.subrange(538, 597) =~= "- Avoid stop words, filler words, or overly generic terms.\n"@);
    assert(whole.subrange(597, 614) =~= "\n### Input Query\n"@);
    lemma_cut(whole, 206, 256);
    lemma_cut(whole, 256, 340);
    lemma_cut(whole, 340, 419);
    lemma_cut(whole, 419, 492);
    lemma_cut(whole, 492, 538);
    lemma_cut(whole, 538, 597);
    lemma_cut(whole, 597, 614);
}

/// The request for keywords is a chat request of one message, in which the user
/// gives the instruction with the query as the debug format writes it.
pub proof fn the_chat_model_gets_the_instruction(service: ServiceConfigView, query: Seq<char>)
    requires
        asks_for_keywords(query),
    ensures
        ({
            &&& keyword_request(service, query).body matches BodyView::Encoded(bytes)
            &&& json_text(bytes) matches Some(json)
            &&& json.get("messages"@) matches Some(JsonView::Array(messages))
            &&& messages.len() == 1
            &&& messages[0].get("role"@) == Some(JsonView::Text("user"@))
            &&& messages[0].get("content"@) == Some(
                JsonView::Text(keyword_prompt(debug_form(query))),
            )
        }),
{
    let json = json_text(chat_body(keyword_prompt(debug_form(query)))).unwrap();
    let message = json.get("messages"@).unwrap()->Array_0[0];
    only_a_text_is_read_as_one(message, "role"@, "user"@);
    only_a_text_is_read_as_one(message, "content"@, keyword_prompt(debug_form(query)));
}

/// The request for the embedding of a query is a document with the query as its one
/// member, the input.
pub proof fn the_embedding_is_that_of_the_query(service: ServiceConfigView, query: Seq<char>)
    requires
        asks_for_embedding(query),
    ensures
        ({
            &&& embedding_request(Some(service), query) matches Ok(request)
            &&& request.body matches BodyView::Encoded(bytes)
            &&& json_text(bytes) matches Some(JsonView::Object(members))
            &&& members == seq![("input"@, JsonView::Text(query))]
        }),
{
}

/// A call is posted to the path below the address of the service, slashes at whose
/// end do not count, as a document and with the key where there is one.
pub proof fn a_call_goes_to_the_service(
    service: ServiceConfigView,
    base: Seq<char>,
    query: Seq<char>,
)
    requires
        base.is_prefix_of(service.url),
        base.len() > 0 ==> base.last() != '/',
        forall|i: int| base.len() <= i < service.url.len() ==> #[trigger] service.url[i] == '/',
    ensures
        ({
            &&& embedding_request(Some(service), query) matches Ok(request)
            &&& request.method == Method::Post
            &&& request.url == base + "/v1/embeddings"@
            &&& request.query.len() == 0
            &&& request.body == BodyView::Encoded(embedding_body(query))
            &&& service.api_key matches Some(key) ==> request.headers == seq![
                ("content-type"@, "application/json"@),
                ("authorization"@, key),
            ]
            &&& service.api_key is None ==> request.headers == seq![
                ("content-type"@, "application/json"@),
            ]
        }),
        ({
            let request = keyword_request(service, query);
            &&& request.method == Method::Post
            &&& request.url == base + "/v1/chat/completions"@
            &&& request.query.len() == 0
            &&& request.body == BodyView::Encoded(
                chat_body(keyword_prompt(debug_form(query))),
            )
            &&& service.api_key matches Some(key) ==> request.headers == seq![
                ("content-type"@, "application/json"@),
                ("authorization"@, key),
            ]
            &&& service.api_key is None ==> request.headers == seq![
                ("content-type"@, "application/json"@),
            ]
        }),
        embedding_request(None, query) == Err::<HttpRequestView, _>(
            McpErrorView {
                code: ErrorCode::InternalError,
                message: "Embedding service URL is not configured"@,
            },
        ),
{
    trimming_is_unique(service.url, base);
}

/// The embedding of a query is the first that the reply holds, whole and whatever
/// the status; where there is none the error says what went wrong.
pub proof fn the_first_embedding_counts(
    status: u16,
    body: Seq<u8>,
    embeddings: Seq<Seq<u64>>,
    e: Seq<char>,
)
    ensures
        embeddings_text(body) == Ok::<Seq<Seq<u64>>, Seq<char>>(embeddings) && embeddings.len() > 0
            ==> embedding_result(HttpOutcomeView::Reply(status, body)) == Ok::<
            Seq<u64>,
            McpErrorView,
        >(embeddings[0]),
        embeddings_text(body) == Ok::<Seq<Seq<u64>>, Seq<char>>(embeddings) && embeddings.len()
            == 0 ==> embedding_result(HttpOutcomeView::Reply(status, body)) == Err::<Seq<u64>, _>(
            McpErrorView {
                code: ErrorCode::InternalError,
                message: "No embeddings returned"@,
            },
        ),
        embeddings_text(body) == Err::<Seq<Seq<u64>>, Seq<char>>(e) ==> embedding_result(
            HttpOutcomeView::Reply(status, body),
        ) == embedding_result(HttpOutcomeView::BodyFailed(status, e)),
        embedding_result(HttpOutcomeView::BodyFailed(status, e)) == Err::<Seq<u64>, _>(
            McpErrorView {
                code: ErrorCode::InternalError,
                message: "Failed to parse embeddings response: "@ + e,
            },
        ),
        embedding_result(HttpOutcomeView::SendFailed(e)) == Err::<Seq<u64>, _>(
            McpErrorView {
                code: ErrorCode::InternalError,
                message: "Failed to send the embedding request: "@ + e,
            },
        ),
{
}

/// The keywords are the whole content of the first choice, whatever the status and
/// whatever choices follow; where there is none the error says what went wrong.
pub proof fn the_first_choice_counts(
    status: u16,
    body: Seq<u8>,
    contents: Seq<Option<Seq<char>>>,
    e: Seq<char>,
)
    ensures
        chat_text(body) == Some(contents) ==> {
            let found = keywords_result(HttpOutcomeView::Reply(status, body));
            if contents.len() == 0 {
                found is None
            } else {
                match contents[0] {
                    Some(content) => found == Some(Ok::<Seq<char>, McpErrorView>(content)),
                    None => found is None,
                }
            }
        },
        chat_text(body) is None ==> keywords_result(HttpOutcomeView::Reply(status, body))
            == keywords_result(
            HttpOutcomeView::BodyFailed(status, "error decoding response body"@),
        ),
        keywords_result(HttpOutcomeView::BodyFailed(status, e)) == Some(
            Err::<Seq<char>, _>(
                McpErrorView {
                    code: ErrorCode::InternalError,
                    message: "Failed to parse the chat response: "@ + e,
                },
            ),
        ),
        keywords_result(HttpOutcomeView::SendFailed(e)) == Some(
            Err::<Seq<char>, _>(
                McpErrorView {
                    code: ErrorCode::InternalError,
                    message: "Failed to send the chat request: "@ + e,
                },
            ),
        ),
{
}

/// The model of what was read shows every embedding number by number, or the text of
/// the error.
pub proof fn embeddings_are_shown_whole(embeddings: Vec<Vec<u64>>, e: String)
    ensures
        embeddings_read(Err(e)) == Err::<Seq<Seq<u64>>, Seq<char>>(e@),
        embeddings_read(Ok(embeddings)) matches Ok(shown) && shown.len() == embeddings@.len()
            && forall|i: int|
            0 <= i < embeddings@.len() ==> #[trigger] shown[i] == embeddings@[i]@,
{
    let shown = embeddings.deep_view();
    assert forall|i: int| 0 <= i < embeddings@.len() implies #[trigger] shown[i]
        == embeddings@[i]@ by {
        assert(shown[i] =~= embeddings@[i]@);
    }
}

} // verus!
