use gaia_mcp::config::{AgenticSearchConfig, QdrantConfig, ServiceConfig, TidbConfig};
use gaia_mcp::error::McpError;
use gaia_mcp::http::{Body, HttpOutcome, HttpRequest, Method, Status};
use gaia_mcp::json::{read_json, Json, JsonNumber};
use gaia_mcp::points::{
    ask_points, read_hit, read_points, read_points_answer, refuse_points, take_sources,
    QdrantSearchHit,
};
use gaia_mcp::search::{combine, AgenticSearchServer, SearchEvent, SearchState, SearchStep, SearchWork};
use gaia_mcp::service::{
    ask_embedding, ask_keywords, choose_keywords, make_keyword_prompt, read_embedding,
    read_keywords, take_first_embedding,
};
use gaia_mcp::tidb::{
    check_connection, check_table, check_version, read_hits, write_hits_sql, write_table_sql,
    TidbSearchHit,
};
use gaia_mcp::tool::{set_search_tool_description, set_search_tool_param_description, ToolTexts};

fn owned(parts: &[&str]) -> Vec<String> {
    parts.iter().map(|p| p.to_string()).collect()
}

fn internal(message: &str) -> McpError {
    McpError::internal(message)
}

fn pair(name: &str, value: &str) -> (String, String) {
    (name.to_string(), value.to_string())
}

fn reply(code: u16, body: &str) -> HttpOutcome {
    HttpOutcome::Reply(Status::from_u16(code).unwrap(), body.as_bytes().to_vec())
}

fn unsent() -> HttpOutcome {
    HttpOutcome::SendFailed("refused".to_string())
}

fn cut(code: u16) -> HttpOutcome {
    HttpOutcome::BodyFailed(Status::from_u16(code).unwrap(), "cut".to_string())
}

fn service(url: &str, api_key: Option<&str>) -> ServiceConfig {
    ServiceConfig { url: url.to_string(), api_key: api_key.map(|k| k.to_string()) }
}

fn qdrant() -> QdrantConfig {
    QdrantConfig {
        base_url: "http://q:6333/".to_string(),
        api_key: Some("qk".to_string()),
        collection: "docs".to_string(),
        payload_source: "source".to_string(),
    }
}

fn tidb() -> TidbConfig {
    TidbConfig { database: "db".to_string(), table_name: "texts".to_string() }
}

fn config(with_qdrant: bool, with_tidb: bool) -> AgenticSearchConfig {
    AgenticSearchConfig {
        qdrant_config: if with_qdrant { Some(qdrant()) } else { None },
        tidb_config: if with_tidb { Some(tidb()) } else { None },
        limit: 10,
        score_threshold: 0.5f64.to_bits(),
        chat_service: Some(service("http://chat", None)),
        embedding_service: Some(service("http://emb/", Some("ek"))),
    }
}

const EMBEDDINGS: &str = "{\"object\":\"list\",\"data\":[\
    {\"index\":0,\"object\":\"embedding\",\"embedding\":[0.5,-1,2.25]},\
    {\"index\":1,\"object\":\"embedding\",\"embedding\":[9.0]}],\
    \"model\":\"m\",\"usage\":{\"prompt_tokens\":1,\"completion_tokens\":0,\"total_tokens\":1}}";

const NO_EMBEDDINGS: &str = "{\"object\":\"list\",\"data\":[],\"model\":\"m\",\
    \"usage\":{\"prompt_tokens\":1,\"completion_tokens\":0,\"total_tokens\":1}}";

fn chat(content: &str) -> String {
    format!(
        "{{\"id\":\"c\",\"object\":\"chat.completion\",\"created\":1,\"model\":\"m\",\"choices\":[\
        {{\"index\":0,\"message\":{{\"role\":\"assistant\",\"content\":{content}}},\
        \"finish_reason\":\"stop\",\"logprobs\":null}}],\
        \"usage\":{{\"prompt_tokens\":1,\"completion_tokens\":1,\"total_tokens\":2}}}}"
    )
}

fn points(sources: &[&str]) -> String {
    let hits: Vec<String> = sources
        .iter()
        .map(|s| format!("{{\"score\":0.9,\"payload\":{{\"source\":\"{s}\"}},\"vector\":[0.5,1]}}"))
        .collect();
    format!("{{\"result\":[{}],\"status\":\"ok\",\"time\":0.1}}", hits.join(","))
}

fn rows(contents: &[&str]) -> SearchEvent {
    SearchEvent::Rows(Ok(contents
        .iter()
        .map(|c| TidbSearchHit { content: c.to_string() })
        .collect()))
}

fn bits(values: &[f64]) -> Vec<u64> {
    values.iter().map(|v| v.to_bits()).collect()
}

fn run(server: &AgenticSearchServer, query: &str, events: Vec<SearchEvent>) -> (Vec<SearchWork>, SearchStep) {
    let mut done = Vec::new();
    let mut step = server.search(query.to_string());
    for event in events {
        match step {
            SearchStep::Work(state, work) => {
                done.push(work);
                step = server.resume_search(state, event);
            }
            other => return (done, other),
        }
    }
    (done, step)
}

fn vector_events(sources: &[&str]) -> Vec<SearchEvent> {
    vec![
        SearchEvent::Sent(reply(200, EMBEDDINGS)),
        SearchEvent::Sent(reply(200, &points(sources))),
    ]
}

fn keyword_events(contents: &[&str]) -> Vec<SearchEvent> {
    vec![
        SearchEvent::Sent(reply(200, &chat("\"rust verus\""))),
        SearchEvent::Connected(Ok(())),
        SearchEvent::Version(Ok(Some("8.0".to_string()))),
        SearchEvent::Count(Ok(Some(1))),
        rows(contents),
    ]
}

// Combining.

#[test]
fn both_found_gives_each_source_once() {
    assert_eq!(
        combine(owned(&["a", "b", "a"]), owned(&["b", "c"])),
        owned(&["a", "b", "c"])
    );
    assert_eq!(combine(owned(&["x"]), owned(&["x"])), owned(&["x"]));
}

#[test]
fn one_found_gives_what_it_found() {
    assert_eq!(combine(owned(&["a", "a"]), owned(&[])), owned(&["a", "a"]));
    assert_eq!(combine(owned(&[]), owned(&["b", "b"])), owned(&["b", "b"]));
    assert_eq!(combine(owned(&[]), owned(&[])), owned(&[]));
}

// Embeddings.

#[test]
fn the_embedding_request() {
    let request = ask_embedding(&Some(service("http://emb//", Some("key"))), "a \"b\"").unwrap();
    assert_eq!(
        request,
        HttpRequest {
            method: Method::Post,
            url: "http://emb/v1/embeddings".to_string(),
            headers: vec![pair("content-type", "application/json"), pair("authorization", "key")],
            query: vec![],
            body: Body::Encoded(b"{\"input\":\"a \\\"b\\\"\"}".to_vec()),
        }
    );
    let request = ask_embedding(&Some(service("http://emb", None)), "q").unwrap();
    assert_eq!(request.headers, vec![pair("content-type", "application/json")]);
    match request.body {
        Body::Encoded(bytes) => assert_eq!(
            read_json(&bytes),
            Some(Json::Object(vec![("input".to_string(), Json::Text("q".to_string()))]))
        ),
        _ => panic!(),
    }
    assert_eq!(
        ask_embedding(&None, "q"),
        Err(internal("Embedding service URL is not configured"))
    );
}

#[test]
fn slashes_at_the_end_of_an_address_do_not_count() {
    let with = ask_embedding(&Some(service("http://emb/", None)), "q");
    assert_eq!(with, ask_embedding(&Some(service("http://emb", None)), "q"));
    let mut config = qdrant();
    config.base_url = "http://q:6333".to_string();
    assert_eq!(ask_points(&config, &vec![], 1, 0), ask_points(&qdrant(), &vec![], 1, 0));
}

#[test]
fn the_first_embedding_counts() {
    assert_eq!(read_embedding(&reply(200, EMBEDDINGS)), Ok(bits(&[0.5, -1.0, 2.25])));
    assert_eq!(read_embedding(&reply(500, EMBEDDINGS)), Ok(bits(&[0.5, -1.0, 2.25])));
    assert_eq!(
        read_embedding(&reply(200, NO_EMBEDDINGS)),
        Err(internal("No embeddings returned"))
    );
    assert_eq!(take_first_embedding(Ok(vec![vec![1, 2], vec![3]])), Ok(vec![1, 2]));
    assert_eq!(take_first_embedding(Ok(vec![])), Err(internal("No embeddings returned")));
}

#[test]
fn failures_of_the_embedding_request() {
    assert_eq!(
        read_embedding(&unsent()),
        Err(internal("Failed to send the embedding request: refused"))
    );
    assert_eq!(
        read_embedding(&cut(200)),
        Err(internal("Failed to parse embeddings response: cut"))
    );
    assert_eq!(
        read_embedding(&reply(200, "{}")),
        Err(internal(
            "Failed to parse embeddings response: missing field `object` at line 1 column 2"
        ))
    );
}

// Keywords.

#[test]
fn the_keyword_request() {
    let request = ask_keywords(&service("http://chat/", Some("ck")), "who\nis \"x\"?");
    assert_eq!(request.method, Method::Post);
    assert_eq!(request.url, "http://chat/v1/chat/completions");
    assert_eq!(
        request.headers,
        vec![pair("content-type", "application/json"), pair("authorization", "ck")]
    );
    let prompt = make_keyword_prompt("\"who\\nis \\\"x\\\"?\"");
    assert!(prompt.starts_with("You are a multilingual keyword extractor. Your task"));
    assert!(prompt.ends_with("\n\n### Input Query\n\"who\\nis \\\"x\\\"?\""));
    let document = match request.body {
        Body::Encoded(bytes) => read_json(&bytes).unwrap(),
        _ => panic!(),
    };
    match document.get("messages") {
        Some(Json::Array(messages)) => {
            assert_eq!(messages.len(), 1);
            assert_eq!(messages[0].get("role"), Some(&Json::Text("user".to_string())));
            assert_eq!(messages[0].get("content"), Some(&Json::Text(prompt)));
        }
        _ => panic!(),
    }
    assert_eq!(document.get("stream"), Some(&Json::Bool(false)));
}

#[test]
fn the_first_choice_counts() {
    assert_eq!(read_keywords(&reply(200, &chat("\"a b\""))), Some(Ok("a b".to_string())));
    assert_eq!(read_keywords(&reply(404, &chat("\"a b\""))), Some(Ok("a b".to_string())));
    assert_eq!(read_keywords(&reply(200, &chat("null"))), None);
    assert_eq!(choose_keywords(&Some(vec![])), None);
    assert_eq!(choose_keywords(&Some(vec![None, Some("x".to_string())])), None);
    assert_eq!(
        choose_keywords(&Some(vec![Some("x".to_string()), None])),
        Some(Ok("x".to_string()))
    );
}

#[test]
fn failures_of_the_keyword_request() {
    assert_eq!(
        read_keywords(&unsent()),
        Some(Err(internal("Failed to send the chat request: refused")))
    );
    assert_eq!(
        read_keywords(&cut(500)),
        Some(Err(internal("Failed to parse the chat response: cut")))
    );
    assert_eq!(
        read_keywords(&reply(200, "[]x")),
        Some(Err(internal("Failed to parse the chat response: error decoding response body")))
    );
}

// Points.

#[test]
fn the_points_request() {
    let request = ask_points(&qdrant(), &bits(&[0.5, -2.0]), 7, 0.25f64.to_bits());
    let number = |v: f64| Json::Number(JsonNumber::Float(v.to_bits()));
    assert_eq!(
        request,
        HttpRequest {
            method: Method::Post,
            url: "http://q:6333/collections/docs/points/search".to_string(),
            headers: vec![pair("api-key", "qk"), pair("Content-Type", "application/json")],
            query: vec![],
            body: Body::Json(Json::Object(vec![
                ("vector".to_string(), Json::Array(vec![number(0.5), number(-2.0)])),
                ("limit".to_string(), Json::Number(JsonNumber::PosInt(7))),
                ("with_payload".to_string(), Json::Bool(true)),
                ("with_vector".to_string(), Json::Bool(true)),
                ("score_threshold".to_string(), number(0.25)),
            ])),
        }
    );
    let mut config = qdrant();
    config.api_key = None;
    assert_eq!(
        ask_points(&config, &vec![], 7, 0).headers,
        vec![pair("Content-Type", "application/json")]
    );
}

#[test]
fn a_double_that_is_not_finite_is_sent_as_null() {
    let vector = bits(&[f64::NAN, f64::INFINITY, f64::NEG_INFINITY, f64::MAX, f64::MIN, -0.0]);
    let number = |v: f64| Json::Number(JsonNumber::Float(v.to_bits()));
    for threshold in [f64::NAN, -f64::NAN, f64::INFINITY, f64::NEG_INFINITY] {
        let request = ask_points(&qdrant(), &vector, 7, threshold.to_bits());
        assert_eq!(
            request.body,
            Body::Json(Json::Object(vec![
                (
                    "vector".to_string(),
                    Json::Array(vec![
                        Json::Null,
                        Json::Null,
                        Json::Null,
                        number(f64::MAX),
                        number(f64::MIN),
                        number(-0.0),
                    ])
                ),
                ("limit".to_string(), Json::Number(JsonNumber::PosInt(7))),
                ("with_payload".to_string(), Json::Bool(true)),
                ("with_vector".to_string(), Json::Bool(true)),
                ("score_threshold".to_string(), Json::Null),
            ]))
        );
    }
}

#[test]
fn reads_the_numbers_of_a_point_as_doubles() {
    let json = read_json(
        b"{\"score\":9007199254740993,\"payload\":{},\"vector\":[-9007199254740995,0,-3,2.5,18446744073709551615]}",
    )
    .unwrap();
    let hit = read_hit(&json).unwrap();
    assert_eq!(hit.score, 9007199254740992.0f64.to_bits());
    assert_eq!(
        hit.vector,
        bits(&[-9007199254740996.0, 0.0, -3.0, 2.5, 18446744073709551616.0])
    );
}

#[test]
fn reads_points() {
    let hits = read_points(&reply(200, &points(&["a", "b"]))).unwrap().unwrap();
    assert_eq!(hits.len(), 2);
    assert_eq!(
        hits[0],
        QdrantSearchHit {
            score: 0.9f64.to_bits(),
            payload: vec![("source".to_string(), Json::Text("a".to_string()))],
            vector: bits(&[0.5, 1.0]),
        }
    );
    assert_eq!(take_sources(&hits, "source"), Some(owned(&["a", "b"])));
    assert_eq!(take_sources(&hits, "other"), None);
    assert_eq!(take_sources(&vec![], "other"), Some(vec![]));
    assert_eq!(read_points(&reply(200, "{\"result\":[]}")), Some(Ok(vec![])));
}

#[test]
fn a_source_must_be_a_text() {
    let json = read_json(b"{\"score\":1,\"payload\":{\"source\":5},\"vector\":[]}").unwrap();
    assert_eq!(take_sources(&vec![read_hit(&json).unwrap()], "source"), None);
}

#[test]
fn points_need_score_payload_and_vector() {
    for body in [
        "{\"payload\":{},\"vector\":[]}",
        "{\"score\":\"1\",\"payload\":{},\"vector\":[]}",
        "{\"score\":1,\"vector\":[]}",
        "{\"score\":1,\"payload\":[],\"vector\":[]}",
        "{\"score\":1,\"payload\":{}}",
        "{\"score\":1,\"payload\":{},\"vector\":null}",
        "{\"score\":1,\"payload\":{},\"vector\":[1,\"2\"]}",
        "7",
    ] {
        assert_eq!(read_hit(&read_json(body.as_bytes()).unwrap()), None);
        let list = format!("{{\"result\":[{body}]}}");
        assert_eq!(read_points(&reply(200, &list)), None);
    }
}

#[test]
fn failures_of_a_search_for_points() {
    assert_eq!(read_points(&unsent()), Some(Err(internal("Failed to search points: refused"))));
    assert_eq!(read_points(&cut(200)), Some(Err(internal("Failed to search points: cut"))));
    assert_eq!(
        read_points(&reply(200, "oops")),
        Some(Err(internal("Failed to search points: error decoding response body")))
    );
    let refused = internal("Failed to send search request to Qdrant server. Status: 403 Forbidden");
    assert_eq!(read_points(&reply(403, &points(&["a"]))), Some(Err(refused.clone())));
    assert_eq!(read_points(&cut(403)), Some(Err(refused.clone())));
    assert_eq!(refuse_points("403 Forbidden"), refused);
    assert_eq!(
        read_points(&reply(200, "{\"status\":{\"error\":\"bad vector\"}}")),
        Some(Err(internal("Failed to search points. bad vector")))
    );
    assert_eq!(
        read_points(&reply(200, "{}")),
        Some(Err(internal("Failed to search points. ")))
    );
    assert_eq!(
        read_points_answer(&Json::Null),
        Some(Err(internal("Failed to search points. ")))
    );
    for body in ["{\"result\":null}", "{\"status\":\"ok\"}", "{\"status\":{\"error\":5}}"] {
        assert_eq!(read_points(&reply(200, body)), None);
    }
}

// The full-text index.

#[test]
fn the_queries() {
    assert_eq!(
        write_table_sql(&tidb()),
        "SELECT COUNT(*) FROM information_schema.tables
                WHERE table_schema = 'db' AND table_name = 'texts'"
    );
    assert_eq!(
        write_hits_sql(&tidb(), "rust verus", 25),
        "SELECT * FROM texts
                WHERE fts_match_word('rust verus', content)
                ORDER BY fts_match_word('rust verus', content)
                DESC LIMIT 25"
    );
}

#[test]
fn what_the_queries_give() {
    assert_eq!(check_connection(Ok(())), Ok(()));
    assert_eq!(
        check_connection(Err("down".to_string())),
        Err(internal("Failed to get connection: down"))
    );
    assert_eq!(check_version(Ok(Some("8".to_string()))), Ok(()));
    assert_eq!(check_version(Ok(None)), Err(internal("Failed to query version")));
    assert_eq!(
        check_version(Err("gone".to_string())),
        Err(internal("Failed to query version: gone"))
    );
    let missing = Err(internal("Not found table `texts` in database `db`"));
    assert_eq!(check_table(&tidb(), Ok(Some(1))), Ok(()));
    assert_eq!(check_table(&tidb(), Ok(Some(-1))), Ok(()));
    assert_eq!(check_table(&tidb(), Ok(Some(0))), missing.clone());
    assert_eq!(check_table(&tidb(), Ok(None)), missing);
    assert_eq!(
        check_table(&tidb(), Err("gone".to_string())),
        Err(internal("Failed to check table: gone"))
    );
    let hits = vec![
        TidbSearchHit { content: "a".to_string() },
        TidbSearchHit { content: "a".to_string() },
    ];
    assert_eq!(read_hits(Ok(hits)), Ok(owned(&["a", "a"])));
    assert_eq!(
        read_hits(Err("gone".to_string())),
        Err(internal("Failed to execute search: gone"))
    );
}

// The search.

#[test]
fn a_vector_search() {
    let server = AgenticSearchServer::new(config(true, false));
    let (work, step) = run(&server, "q", vector_events(&["one", "two", "one"]));
    assert_eq!(step, SearchStep::Done(Ok("one\ntwo\none".to_string())));
    assert_eq!(
        work,
        vec![
            SearchWork::Send(ask_embedding(&Some(service("http://emb/", Some("ek"))), "q").unwrap()),
            SearchWork::Send(ask_points(
                &qdrant(),
                &bits(&[0.5, -1.0, 2.25]),
                10,
                0.5f64.to_bits()
            )),
        ]
    );
    let (_, step) = run(&server, "q", vector_events(&[]));
    assert_eq!(step, SearchStep::Done(Ok("".to_string())));
}

#[test]
fn a_keyword_search() {
    let server = AgenticSearchServer::new(config(false, true));
    let (work, step) = run(&server, "q", keyword_events(&["r1", "r1"]));
    assert_eq!(step, SearchStep::Done(Ok("r1\nr1".to_string())));
    assert_eq!(
        work,
        vec![
            SearchWork::Send(ask_keywords(&service("http://emb/", Some("ek")), "q")),
            SearchWork::Connect,
            SearchWork::QueryVersion("SELECT VERSION()".to_string()),
            SearchWork::QueryCount(write_table_sql(&tidb())),
            SearchWork::QueryRows(write_hits_sql(&tidb(), "rust verus", 10)),
        ]
    );
}

#[test]
fn a_combined_search() {
    let server = AgenticSearchServer::new(config(true, true));
    let both = |sources: &[&str], contents: &[&str]| {
        let mut events = vector_events(sources);
        events.extend(keyword_events(contents));
        let (work, step) = run(&server, "q", events);
        assert_eq!(work.len(), 7);
        step
    };
    assert_eq!(both(&["a", "b"], &["b", "c"]), SearchStep::Done(Ok("a\nb\nc".to_string())));
    assert_eq!(both(&["a", "a"], &[]), SearchStep::Done(Ok("a\na".to_string())));
    assert_eq!(both(&[], &["c", "c"]), SearchStep::Done(Ok("c\nc".to_string())));
    assert_eq!(both(&[], &[]), SearchStep::Done(Ok("".to_string())));
}

#[test]
fn a_search_without_an_index() {
    let server = AgenticSearchServer::new(config(false, false));
    assert_eq!(
        server.search("q".to_string()),
        SearchStep::Done(Err(internal("No search mode configured")))
    );
}

#[test]
fn services_that_are_not_configured() {
    let mut without = config(true, true);
    without.embedding_service = None;
    assert_eq!(
        AgenticSearchServer::new(without).search("q".to_string()),
        SearchStep::Done(Err(internal("Embedding service URL is not configured")))
    );
    let mut without = config(false, true);
    without.embedding_service = None;
    assert_eq!(
        AgenticSearchServer::new(without).search("q".to_string()),
        SearchStep::Unanswerable
    );
    let mut without = config(true, true);
    without.chat_service = None;
    let server = AgenticSearchServer::new(without);
    let (work, step) = run(&server, "q", vector_events(&["a"]));
    assert_eq!(work.len(), 2);
    assert_eq!(
        step,
        SearchStep::Work(
            SearchState::Keywords { vector: owned(&["a"]) },
            SearchWork::Send(ask_keywords(&service("http://emb/", Some("ek")), "q"))
        )
    );
    let none = AgenticSearchServer::new(config(false, false));
    assert_eq!(
        none.search_in_qdrant("q".to_string(), &vec![]),
        SearchStep::Done(Err(internal("Qdrant config is not set")))
    );
    let keywords = SearchState::Keywords { vector: vec![] };
    assert_eq!(
        none.resume_search(keywords, SearchEvent::Sent(reply(200, &chat("\"k\"")))),
        SearchStep::Done(Err(internal("TiDB config is not set")))
    );
}

#[test]
fn failed_work_ends_a_search() {
    let server = AgenticSearchServer::new(config(true, true));
    let query = || "q".to_string();
    let vector = || owned(&["found"]);
    let keywords = || "k".to_string();
    let down = || "down".to_string();
    let cases = vec![
        (
            SearchState::Embedding { query: query() },
            SearchEvent::Sent(unsent()),
            "Failed to send the embedding request: refused",
        ),
        (
            SearchState::Points { query: query() },
            SearchEvent::Sent(unsent()),
            "Failed to search points: refused",
        ),
        (
            SearchState::Keywords { vector: vector() },
            SearchEvent::Sent(unsent()),
            "Failed to send the chat request: refused",
        ),
        (
            SearchState::Connection { vector: vector(), keywords: keywords() },
            SearchEvent::Connected(Err(down())),
            "Failed to get connection: down",
        ),
        (
            SearchState::Version { vector: vector(), keywords: keywords() },
            SearchEvent::Version(Err(down())),
            "Failed to query version: down",
        ),
        (
            SearchState::Version { vector: vector(), keywords: keywords() },
            SearchEvent::Version(Ok(None)),
            "Failed to query version",
        ),
        (
            SearchState::Table { vector: vector(), keywords: keywords() },
            SearchEvent::Count(Err(down())),
            "Failed to check table: down",
        ),
        (
            SearchState::Table { vector: vector(), keywords: keywords() },
            SearchEvent::Count(Ok(None)),
            "Not found table `texts` in database `db`",
        ),
        (
            SearchState::Rows { vector: vector() },
            SearchEvent::Rows(Err(down())),
            "Failed to execute search: down",
        ),
    ];
    for (state, event, message) in cases {
        assert_eq!(server.resume_search(state, event), SearchStep::Done(Err(internal(message))));
    }
}

#[test]
fn replies_without_an_answer() {
    let server = AgenticSearchServer::new(config(true, true));
    let points_state = || SearchState::Points { query: "q".to_string() };
    let odd = "{\"result\":[{\"score\":1,\"payload\":{},\"vector\":[]}]}";
    for event in [
        SearchEvent::Sent(reply(200, odd)),
        SearchEvent::Sent(reply(200, "{\"result\":5}")),
        SearchEvent::Connected(Ok(())),
    ] {
        assert_eq!(server.resume_search(points_state(), event), SearchStep::Unanswerable);
    }
    let state = SearchState::Keywords { vector: vec![] };
    assert_eq!(
        server.resume_search(state, SearchEvent::Sent(reply(200, &chat("null")))),
        SearchStep::Unanswerable
    );
}

// The tool.

#[test]
fn the_tool_by_default() {
    let tool = AgenticSearchServer::search_tool_attr(&ToolTexts::new());
    assert_eq!(tool.name, "search");
    assert_eq!(tool.description, "Perform a search for the given query");
    let expected = "{\"type\":\"object\",\"properties\":{\"query\":{\"type\":\"string\",\
        \"description\":\"The query to search for\"}},\"required\":[\"query\"],\
        \"title\":\"SearchRequest\"}";
    let expected = read_json(expected.as_bytes()).unwrap();
    for name in ["type", "properties", "required", "title"] {
        let value = tool.input_schema.get(name).unwrap();
        if name != "properties" {
            assert_eq!(Some(value), expected.get(name));
        }
    }
    let query = tool.input_schema.get("properties").unwrap().get("query").unwrap();
    let wanted = expected.get("properties").unwrap().get("query").unwrap();
    assert_eq!(query.get("type"), wanted.get("type"));
    assert_eq!(query.get("description"), wanted.get("description"));
    match &tool.input_schema {
        Json::Object(members) => assert_eq!(members.len(), 4),
        _ => panic!(),
    }
}

#[test]
fn texts_are_set_once() {
    let mut texts = ToolTexts::new();
    set_search_tool_description(&mut texts, "first".to_string());
    set_search_tool_description(&mut texts, "second".to_string());
    assert_eq!(texts.param_description, None);
    set_search_tool_param_description(&mut texts, "p1".to_string());
    set_search_tool_param_description(&mut texts, "p2".to_string());
    let tool = AgenticSearchServer::search_tool_attr(&texts);
    assert_eq!(tool.description, "first");
    let query = tool.input_schema.get("properties").unwrap().get("query").unwrap();
    assert_eq!(query.get("description"), Some(&Json::Text("p1".to_string())));
}
