//! The search server: a query is answered from the vector database, from the
//! full-text index, or from both.

use crate::config::{
    AgenticSearchConfig, AgenticSearchConfigView, QdrantConfigView, TidbConfigView,
};
use crate::error::{answer, internal_error, McpError, McpErrorView};
use crate::http::{HttpOutcome, HttpOutcomeView, HttpRequest, HttpRequestView};
use crate::json::{json_text, JsonView};
use crate::points::{
    a_search_finds_the_points_of_the_reply, ask_points, every_point_gives_its_source, hit_of,
    hit_shape, points_request, points_result, read_points, sources_of, take_sources,
    QdrantSearchHitView,
};
use crate::service::{
    ask_embedding, ask_keywords, asks_for_embedding, asks_for_keywords, chat_text,
    embedding_request, embedding_result, embeddings_text, keyword_request, keywords_result,
    read_embedding, read_keywords,
};
use crate::text::{
    every_part_is_a_line, is_line, join, joined, joining_adds_only_separators, same_text,
    total_length,
};
use crate::tidb::{
    check_connection, check_table, check_version, connection_result, hits_result, hits_sql, queried,
    read_hits, table_result, table_sql, version_result, version_sql, write_hits_sql,
    write_table_sql, TidbSearchHit,
};
use vstd::prelude::*;

verus! {

// ---------------------------------------------------------------------------
// Combining the results of two searches.
// ---------------------------------------------------------------------------

/// The texts without repetitions, each where it occurs first.
pub open spec fn distinct(texts: Seq<Seq<char>>) -> Seq<Seq<char>>
    decreases texts.len(),
{
    if texts.len() == 0 {
        Seq::empty()
    } else {
        let earlier = distinct(texts.drop_last());
        if earlier.contains(texts.last()) {
            earlier
        } else {
            earlier.push(texts.last())
        }
    }
}

/// The sources of two searches: the distinct ones where both found some, else
/// those of the one that did.
pub open spec fn combined(vector: Seq<Seq<char>>, keyword: Seq<Seq<char>>) -> Seq<Seq<char>> {
    if vector.len() > 0 && keyword.len() > 0 {
        distinct(vector + keyword)
    } else if vector.len() > 0 {
        vector
    } else {
        keyword
    }
}

fn contains_text(texts: &Vec<String>, text: &str) -> (r: bool)
    ensures
        r == texts.deep_view().contains(text@),
{
    let mut i: usize = 0;
    while i < texts.len()
        invariant
            i <= texts@.len(),
            forall|k: int| 0 <= k < i ==> #[trigger] texts.deep_view()[k] != text@,
        decreases texts.len() - i,
    {
        assert(texts.deep_view()[i as int] == texts@[i as int]@);
        if same_text(texts[i].as_str(), text) {
            return true;
        }
        i = i + 1;
    }
    false
}

/// Adds those of `texts` to `found` that are not in it yet.
fn add_distinct(found: &mut Vec<String>, texts: &Vec<String>, Ghost(seen): Ghost<Seq<Seq<char>>>)
    requires
        old(found).deep_view() == distinct(seen),
    ensures
        final(found).deep_view() == distinct(seen + texts.deep_view()),
{
    let ghost all = texts.deep_view();
    let mut i: usize = 0;
    assert(seen + all.take(0) =~= seen);
    while i < texts.len()
        invariant
            i <= texts@.len(),
            all == texts.deep_view(),
            found.deep_view() == distinct(seen + all.take(i as int)),
        decreases texts.len() - i,
    {
        let ghost before = found.deep_view();
        assert((seen + all.take(i + 1)).drop_last() =~= seen + all.take(i as int));
        assert((seen + all.take(i + 1)).last() == texts@[i as int]@);
        if !contains_text(found, texts[i].as_str()) {
            found.push(texts[i].clone());
            assert(found.deep_view() =~= before.push(texts@[i as int]@));
        }
        i = i + 1;
    }
    assert(all.take(i as int) =~= all);
}

/// Combines the sources of two searches.
pub fn combine(vector: Vec<String>, keyword: Vec<String>) -> (r: Vec<String>)
    ensures
        r.deep_view() == combined(vector.deep_view(), keyword.deep_view()),
{
    if vector.len() > 0 && keyword.len() > 0 {
        let mut found: Vec<String> = Vec::new();
        assert(found.deep_view() =~= Seq::empty());
        add_distinct(&mut found, &vector, Ghost(Seq::empty()));
        assert(Seq::empty() + vector.deep_view() =~= vector.deep_view());
        add_distinct(&mut found, &keyword, Ghost(vector.deep_view()));
        found
    } else if vector.len() > 0 {
        vector
    } else {
        keyword
    }
}

// ---------------------------------------------------------------------------
// A search as a sequence of steps.
// ---------------------------------------------------------------------------

/// How far a search has come: what it waits for, and what it has found.
#[derive(Debug, Clone, PartialEq, Eq)]
pub enum SearchState {
    /// The embedding of the query.
    Embedding { query: String },
    /// The points near the embedding.
    Points { query: String },
    /// The keywords of the query.
    Keywords { vector: Vec<String> },
    /// A connection to the full-text index.
    Connection { vector: Vec<String>, keywords: String },
    /// The version of the database.
    Version { vector: Vec<String>, keywords: String },
    /// The number of tables with the configured name.
    Table { vector: Vec<String>, keywords: String },
    /// The rows that match the keywords.
    Rows { vector: Vec<String> },
}

/// The mathematical model of a `SearchState`.
pub enum SearchStateView {
    Embedding { query: Seq<char> },
    Points { query: Seq<char> },
    Keywords { vector: Seq<Seq<char>> },
    Connection { vector: Seq<Seq<char>>, keywords: Seq<char> },
    Version { vector: Seq<Seq<char>>, keywords: Seq<char> },
    Table { vector: Seq<Seq<char>>, keywords: Seq<char> },
    Rows { vector: Seq<Seq<char>> },
}

/// What is to be done outside for a search to go on.
#[derive(Debug, PartialEq, Eq)]
pub enum SearchWork {
    /// Send a request.
    Send(HttpRequest),
    /// Get a connection to the full-text index.
    Connect,
    /// Query one text.
    QueryVersion(String),
    /// Query one number.
    QueryCount(String),
    /// Query rows.
    QueryRows(String),
}

/// The mathematical model of a `SearchWork`.
pub enum SearchWorkView {
    Send(HttpRequestView),
    Connect,
    QueryVersion(Seq<char>),
    QueryCount(Seq<char>),
    QueryRows(Seq<char>),
}

/// What came of the work.
#[derive(Debug, PartialEq, Eq)]
pub enum SearchEvent {
    Sent(HttpOutcome),
    Connected(Result<(), String>),
    Version(Result<Option<String>, String>),
    Count(Result<Option<i32>, String>),
    Rows(Result<Vec<TidbSearchHit>, String>),
}

/// The mathematical model of a `SearchEvent`.
pub enum SearchEventView {
    Sent(HttpOutcomeView),
    Connected(Result<(), Seq<char>>),
    Version(Result<Option<Seq<char>>, Seq<char>>),
    Count(Result<Option<i32>, Seq<char>>),
    Rows(Result<Seq<Seq<char>>, Seq<char>>),
}

/// What a search does next.
#[derive(Debug, PartialEq, Eq)]
pub enum SearchStep {
    /// Have the work done, and go on from the given state with what came of it.
    Work(SearchState, SearchWork),
    /// The search is answered.
    Done(Result<String, McpError>),
    /// What came back, or the configuration, leaves the search without an answer:
    /// a document of another form, a model that chose nothing, no service to extract
    /// keywords with, or a thing that was not asked for.
    Unanswerable,
}

/// The mathematical model of a `SearchStep`.
pub enum SearchStepView {
    Work(SearchStateView, SearchWorkView),
    Done(Result<Seq<char>, McpErrorView>),
    Unanswerable,
}

impl View for SearchState {
    type V = SearchStateView;

    open spec fn view(&self) -> SearchStateView {
        match self {
            SearchState::Embedding { query } => SearchStateView::Embedding { query: query@ },
            SearchState::Points { query } => SearchStateView::Points { query: query@ },
            SearchState::Keywords { vector } => SearchStateView::Keywords {
                vector: vector.deep_view(),
            },
            SearchState::Connection { vector, keywords } => SearchStateView::Connection {
                vector: vector.deep_view(),
                keywords: keywords@,
            },
            SearchState::Version { vector, keywords } => SearchStateView::Version {
                vector: vector.deep_view(),
                keywords: keywords@,
            },
            SearchState::Table { vector, keywords } => SearchStateView::Table {
                vector: vector.deep_view(),
                keywords: keywords@,
            },
            SearchState::Rows { vector } => SearchStateView::Rows { vector: vector.deep_view() },
        }
    }
}

impl View for SearchWork {
    type V = SearchWorkView;

    open spec fn view(&self) -> SearchWorkView {
        match self {
            SearchWork::Send(request) => SearchWorkView::Send(request@),
            SearchWork::Connect => SearchWorkView::Connect,
            SearchWork::QueryVersion(sql) => SearchWorkView::QueryVersion(sql@),
            SearchWork::QueryCount(sql) => SearchWorkView::QueryCount(sql@),
            SearchWork::QueryRows(sql) => SearchWorkView::QueryRows(sql@),
        }
    }
}

impl View for SearchEvent {
    type V = SearchEventView;

    open spec fn view(&self) -> SearchEventView {
        match self {
            SearchEvent::Sent(outcome) => SearchEventView::Sent(outcome@),
            SearchEvent::Connected(given) => SearchEventView::Connected(queried(*given)),
            SearchEvent::Version(given) => SearchEventView::Version(queried(*given)),
            SearchEvent::Count(given) => SearchEventView::Count(queried(*given)),
            SearchEvent::Rows(given) => SearchEventView::Rows(queried(*given)),
        }
    }
}

impl View for SearchStep {
    type V = SearchStepView;

    open spec fn view(&self) -> SearchStepView {
        match self {
            SearchStep::Work(state, work) => SearchStepView::Work(state@, work@),
            SearchStep::Done(r) => SearchStepView::Done(answer(*r)),
            SearchStep::Unanswerable => SearchStepView::Unanswerable,
        }
    }
}

// ---------------------------------------------------------------------------
// The steps.
// ---------------------------------------------------------------------------

/// The answer of a search that found the given sources: one to a line.
pub open spec fn sources_step(sources: Seq<Seq<char>>) -> SearchStepView {
    SearchStepView::Done(Ok(joined(sources, "\n"@)))
}

/// A vector search begins with the embedding of the query.
pub open spec fn vector_search_step(
    config: AgenticSearchConfigView,
    query: Seq<char>,
) -> SearchStepView {
    match embedding_request(config.embedding_service, query) {
        Ok(request) => SearchStepView::Work(
            SearchStateView::Embedding { query },
            SearchWorkView::Send(request),
        ),
        Err(e) => SearchStepView::Done(Err(e)),
    }
}

/// The embedding is looked up in the vector database.
pub open spec fn points_step(
    config: AgenticSearchConfigView,
    query: Seq<char>,
    embedding: Seq<u64>,
) -> SearchStepView {
    match config.qdrant_config {
        Some(qdrant) => SearchStepView::Work(
            SearchStateView::Points { query },
            SearchWorkView::Send(
                points_request(qdrant, embedding, config.limit, config.score_threshold),
            ),
        ),
        None => SearchStepView::Done(Err(internal_error("Qdrant config is not set"@))),
    }
}

/// A keyword search begins with the keywords of the query, which the embedding
/// service extracts.
pub open spec fn keyword_search_step(
    config: AgenticSearchConfigView,
    query: Seq<char>,
    vector: Seq<Seq<char>>,
) -> SearchStepView {
    match config.embedding_service {
        Some(service) => SearchStepView::Work(
            SearchStateView::Keywords { vector },
            SearchWorkView::Send(keyword_request(service, query)),
        ),
        None => SearchStepView::Unanswerable,
    }
}

/// What follows a vector search: the keyword search where it is configured.
pub open spec fn after_vector_search(
    config: AgenticSearchConfigView,
    query: Seq<char>,
    vector: Seq<Seq<char>>,
) -> SearchStepView {
    if config.tidb_config is Some {
        keyword_search_step(config, query, vector)
    } else {
        sources_step(vector)
    }
}

/// The first step of a search.
pub open spec fn search_start(config: AgenticSearchConfigView, query: Seq<char>) -> SearchStepView {
    if config.qdrant_config is Some {
        vector_search_step(config, query)
    } else if config.tidb_config is Some {
        keyword_search_step(config, query, Seq::empty())
    } else {
        SearchStepView::Done(Err(internal_error("No search mode configured"@)))
    }
}

/// The step that follows the points of a vector search.
pub open spec fn after_points(
    config: AgenticSearchConfigView,
    query: Seq<char>,
    outcome: HttpOutcomeView,
) -> SearchStepView {
    match points_result(outcome) {
        Some(Ok(hits)) => if hits.len() == 0 {
            after_vector_search(config, query, Seq::empty())
        } else {
            match config.qdrant_config {
                Some(qdrant) => match sources_of(hits, qdrant.payload_source) {
                    Some(sources) => after_vector_search(config, query, sources),
                    None => SearchStepView::Unanswerable,
                },
                None => SearchStepView::Unanswerable,
            }
        },
        Some(Err(e)) => SearchStepView::Done(Err(e)),
        None => SearchStepView::Unanswerable,
    }
}

/// The step that follows the keywords.
pub open spec fn after_keywords(
    config: AgenticSearchConfigView,
    vector: Seq<Seq<char>>,
    outcome: HttpOutcomeView,
) -> SearchStepView {
    match keywords_result(outcome) {
        Some(Ok(keywords)) => if config.tidb_config is Some {
            SearchStepView::Work(
                SearchStateView::Connection { vector, keywords },
                SearchWorkView::Connect,
            )
        } else {
            SearchStepView::Done(Err(internal_error("TiDB config is not set"@)))
        },
        Some(Err(e)) => SearchStepView::Done(Err(e)),
        None => SearchStepView::Unanswerable,
    }
}

/// The step that follows the number of tables.
pub open spec fn after_count(
    config: AgenticSearchConfigView,
    vector: Seq<Seq<char>>,
    keywords: Seq<char>,
    given: Result<Option<i32>, Seq<char>>,
) -> SearchStepView {
    match config.tidb_config {
        Some(tidb) => match table_result(tidb, given) {
            Ok(_) => SearchStepView::Work(
                SearchStateView::Rows { vector },
                SearchWorkView::QueryRows(hits_sql(tidb, keywords, config.limit)),
            ),
            Err(e) => SearchStepView::Done(Err(e)),
        },
        None => SearchStepView::Unanswerable,
    }
}

/// The step that follows when the work of the last one has brought `event`.
pub open spec fn search_next(
    config: AgenticSearchConfigView,
    state: SearchStateView,
    event: SearchEventView,
) -> SearchStepView {
    match (state, event) {
        (
            SearchStateView::Embedding { query },
            SearchEventView::Sent(outcome),
        ) => match embedding_result(outcome) {
            Ok(embedding) => points_step(config, query, embedding),
            Err(e) => SearchStepView::Done(Err(e)),
        },
        (SearchStateView::Points { query }, SearchEventView::Sent(outcome)) => after_points(
            config,
            query,
            outcome,
        ),
        (SearchStateView::Keywords { vector }, SearchEventView::Sent(outcome)) => after_keywords(
            config,
            vector,
            outcome,
        ),
        (
            SearchStateView::Connection { vector, keywords },
            SearchEventView::Connected(given),
        ) => match connection_result(given) {
            Ok(_) => SearchStepView::Work(
                SearchStateView::Version { vector, keywords },
                SearchWorkView::QueryVersion(version_sql()),
            ),
            Err(e) => SearchStepView::Done(Err(e)),
        },
        (
            SearchStateView::Version { vector, keywords },
            SearchEventView::Version(given),
        ) => match (version_result(given), config.tidb_config) {
            (Err(e), _) => SearchStepView::Done(Err(e)),
            (Ok(_), Some(tidb)) => SearchStepView::Work(
                SearchStateView::Table { vector, keywords },
                SearchWorkView::QueryCount(table_sql(tidb)),
            ),
            (Ok(_), None) => SearchStepView::Unanswerable,
        },
        (SearchStateView::Table { vector, keywords }, SearchEventView::Count(given)) => after_count(
            config,
            vector,
            keywords,
            given,
        ),
        (SearchStateView::Rows { vector }, SearchEventView::Rows(given)) => match hits_result(
            given,
        ) {
            Ok(keyword) => sources_step(combined(vector, keyword)),
            Err(e) => SearchStepView::Done(Err(e)),
        },
        _ => SearchStepView::Unanswerable,
    }
}

/// A search server.
#[derive(Debug, Clone)]
pub struct AgenticSearchServer {
    config: AgenticSearchConfig,
}

impl View for AgenticSearchServer {
    type V = AgenticSearchConfigView;

    closed spec fn view(&self) -> AgenticSearchConfigView {
        self.config.deep_view()
    }
}

fn finish(sources: &Vec<String>) -> (r: SearchStep)
    ensures
        r@ == sources_step(sources.deep_view()),
{
    SearchStep::Done(Ok(join(sources, "\n")))
}

impl AgenticSearchServer {
    pub fn new(config: AgenticSearchConfig) -> (server: AgenticSearchServer)
        ensures
            server@ == config.deep_view(),
    {
        AgenticSearchServer { config }
    }

    /// Search for the query: the first step. Where it asks for the embedding of the
    /// query, or for its keywords, that is what the body of the request says.
    pub fn search(&self, query: String) -> (r: SearchStep)
        ensures
            r@ == search_start(self@, query@),
            r is Work && self@.qdrant_config is Some ==> asks_for_embedding(query@),
            r is Work && self@.qdrant_config is None ==> asks_for_keywords(query@),
    {
        match (&self.config.qdrant_config, &self.config.tidb_config) {
            (Some(_), _) => self.vector_search(query),
            (None, Some(_)) => {
                let found: Vec<String> = Vec::new();
                assert(found.deep_view() =~= Seq::empty());
                self.keyword_search(query, found)
            },
            (None, None) => SearchStep::Done(Err(McpError::internal("No search mode configured"))),
        }
    }

    /// The step that a vector search begins with.
    pub fn vector_search(&self, query: String) -> (r: SearchStep)
        ensures
            r@ == vector_search_step(self@, query@),
            r is Work ==> asks_for_embedding(query@),
    {
        match ask_embedding(&self.config.embedding_service, query.as_str()) {
            Ok(request) => SearchStep::Work(
                SearchState::Embedding { query },
                SearchWork::Send(request),
            ),
            Err(e) => SearchStep::Done(Err(e)),
        }
    }

    /// The step that looks an embedding up in the vector database.
    pub fn search_in_qdrant(&self, query: String, embedding: &Vec<u64>) -> (r: SearchStep)
        ensures
            r@ == points_step(self@, query@, embedding@),
    {
        match &self.config.qdrant_config {
            Some(qdrant) => SearchStep::Work(
                SearchState::Points { query },
                SearchWork::Send(
                    ask_points(qdrant, embedding, self.config.limit, self.config.score_threshold),
                ),
            ),
            None => SearchStep::Done(Err(McpError::internal("Qdrant config is not set"))),
        }
    }

    /// The step that a keyword search begins with, after a vector search that found
    /// the given sources.
    pub fn keyword_search(&self, query: String, vector: Vec<String>) -> (r: SearchStep)
        ensures
            r@ == keyword_search_step(self@, query@, vector.deep_view()),
            r is Work ==> asks_for_keywords(query@),
    {
        match &self.config.embedding_service {
            Some(service) => SearchStep::Work(
                SearchState::Keywords { vector },
                SearchWork::Send(ask_keywords(service, query.as_str())),
            ),
            None => SearchStep::Unanswerable,
        }
    }

    fn leave_vector_search(&self, query: String, vector: Vec<String>) -> (r: SearchStep)
        ensures
            r@ == after_vector_search(self@, query@, vector.deep_view()),
            r is Work ==> asks_for_keywords(query@),
    {
        if self.config.tidb_config.is_some() {
            self.keyword_search(query, vector)
        } else {
            finish(&vector)
        }
    }

    fn leave_points(&self, query: String, outcome: &HttpOutcome) -> (r: SearchStep)
        ensures
            r@ == after_points(self@, query@, outcome@),
            r is Work ==> asks_for_keywords(query@),
    {
        match read_points(outcome) {
            Some(Ok(hits)) => if hits.len() == 0 {
                let found: Vec<String> = Vec::new();
                assert(found.deep_view() =~= Seq::empty());
                self.leave_vector_search(query, found)
            } else {
                match &self.config.qdrant_config {
                    Some(qdrant) => match take_sources(&hits, qdrant.payload_source.as_str()) {
                        Some(sources) => self.leave_vector_search(query, sources),
                        None => SearchStep::Unanswerable,
                    },
                    None => SearchStep::Unanswerable,
                }
            },
            Some(Err(e)) => SearchStep::Done(Err(e)),
            None => SearchStep::Unanswerable,
        }
    }

    fn leave_keywords(&self, vector: Vec<String>, outcome: &HttpOutcome) -> (r: SearchStep)
        ensures
            r@ == after_keywords(self@, vector.deep_view(), outcome@),
    {
        match read_keywords(outcome) {
            Some(Ok(keywords)) => if self.config.tidb_config.is_some() {
                SearchStep::Work(SearchState::Connection { vector, keywords }, SearchWork::Connect)
            } else {
                SearchStep::Done(Err(McpError::internal("TiDB config is not set")))
            },
            Some(Err(e)) => SearchStep::Done(Err(e)),
            None => SearchStep::Unanswerable,
        }
    }

    fn leave_version(
        &self,
        vector: Vec<String>,
        keywords: String,
        given: Result<Option<String>, String>,
    ) -> (r: SearchStep)
        ensures
            r@ == search_next(
                self@,
                SearchStateView::Version { vector: vector.deep_view(), keywords: keywords@ },
                SearchEventView::Version(queried(given)),
            ),
    {
        match check_version(given) {
            Err(e) => SearchStep::Done(Err(e)),
            Ok(_) => match &self.config.tidb_config {
                Some(tidb) => SearchStep::Work(
                    SearchState::Table { vector, keywords },
                    SearchWork::QueryCount(write_table_sql(tidb)),
                ),
                None => SearchStep::Unanswerable,
            },
        }
    }

    fn leave_count(
        &self,
        vector: Vec<String>,
        keywords: String,
        given: Result<Option<i32>, String>,
    ) -> (r: SearchStep)
        ensures
            r@ == after_count(self@, vector.deep_view(), keywords@, queried(given)),
    {
        match &self.config.tidb_config {
            Some(tidb) => match check_table(tidb, given) {
                Ok(_) => {
                    let sql = write_hits_sql(tidb, keywords.as_str(), self.config.limit);
                    SearchStep::Work(SearchState::Rows { vector }, SearchWork::QueryRows(sql))
                },
                Err(e) => SearchStep::Done(Err(e)),
            },
            None => SearchStep::Unanswerable,
        }
    }

    /// The step that follows when the work of the last one has brought `event`. Where
    /// a search goes on from its points to the keywords of the query, the body of the
    /// request says so.
    pub fn resume_search(&self, state: SearchState, event: SearchEvent) -> (r: SearchStep)
        ensures
            r@ == search_next(self@, state@, event@),
            state matches SearchState::Points { query } ==> (r is Work ==> asks_for_keywords(
                query@,
            )),
    {
        match (state, event) {
            (
                SearchState::Embedding { query },
                SearchEvent::Sent(outcome),
            ) => match read_embedding(&outcome) {
                Ok(embedding) => {
                    assert(embedding.deep_view() =~= embedding@);
                    self.search_in_qdrant(query, &embedding)
                },
                Err(e) => SearchStep::Done(Err(e)),
            },
            (SearchState::Points { query }, SearchEvent::Sent(outcome)) => self.leave_points(
                query,
                &outcome,
            ),
            (SearchState::Keywords { vector }, SearchEvent::Sent(outcome)) => self.leave_keywords(
                vector,
                &outcome,
            ),
            (
                SearchState::Connection { vector, keywords },
                SearchEvent::Connected(given),
            ) => match check_connection(given) {
                Ok(_) => SearchStep::Work(
                    SearchState::Version { vector, keywords },
                    SearchWork::QueryVersion("SELECT VERSION()".to_owned()),
                ),
                Err(e) => SearchStep::Done(Err(e)),
            },
            (
                SearchState::Version { vector, keywords },
                SearchEvent::Version(given),
            ) => self.leave_version(vector, keywords, given),
            (SearchState::Table { vector, keywords }, SearchEvent::Count(given)) => self.leave_count(
                vector,
                keywords,
                given,
            ),
            (SearchState::Rows { vector }, SearchEvent::Rows(given)) => match read_hits(given) {
                Ok(keyword) => finish(&combine(vector, keyword)),
                Err(e) => SearchStep::Done(Err(e)),
            },
            _ => SearchStep::Unanswerable,
        }
    }
}

// ---------------------------------------------------------------------------
// What holds of every search.
// ---------------------------------------------------------------------------

/// Leaving out repetitions keeps every text, adds none, and leaves each once.
pub proof fn distinct_keeps_each_text_once(texts: Seq<Seq<char>>)
    ensures
        distinct(texts).no_duplicates(),
        forall|t: Seq<char>| #[trigger] distinct(texts).contains(t) <==> texts.contains(t),
    decreases texts.len(),
{
    if texts.len() > 0 {
        let earlier = distinct(texts.drop_last());
        let last = texts.last();
        distinct_keeps_each_text_once(texts.drop_last());
        assert(texts =~= texts.drop_last().push(last));
        assert forall|t: Seq<char>| #[trigger] distinct(texts).contains(t) <==> texts.contains(
            t,
        ) by {
            lemma_push_contains(texts.drop_last(), last, t);
            lemma_push_contains(earlier, last, t);
        }
    }
}

proof fn lemma_push_contains(s: Seq<Seq<char>>, x: Seq<char>, t: Seq<char>)
    ensures
        s.push(x).contains(t) <==> s.contains(t) || t == x,
{
    if s.contains(t) {
        let i = choose|i: int| 0 <= i < s.len() && s[i] == t;
        assert(s.push(x)[i] == t);
    }
    if t == x {
        assert(s.push(x)[s.len() as int] == t);
    }
}

/// A combined search finds what either search finds and nothing else; where both
/// find something it gives no source twice, and where one finds nothing it gives
/// just what the other found.
pub proof fn combining_gives_the_union(vector: Seq<Seq<char>>, keyword: Seq<Seq<char>>)
    ensures
        forall|t: Seq<char>| #[trigger]
            combined(vector, keyword).contains(t) <==> vector.contains(t) || keyword.contains(t),
        vector.len() > 0 && keyword.len() > 0 ==> combined(vector, keyword).no_duplicates(),
        combined(vector, Seq::empty()) == vector,
        combined(Seq::empty(), keyword) == keyword,
{
    distinct_keeps_each_text_once(vector + keyword);
    assert(vector.len() == 0 ==> vector =~= Seq::empty());
    assert forall|t: Seq<char>| #[trigger]
        combined(vector, keyword).contains(t) <==> vector.contains(t) || keyword.contains(t) by {
        if vector.contains(t) {
            let i = choose|i: int| 0 <= i < vector.len() && vector[i] == t;
            assert((vector + keyword)[i] == t);
        }
        if keyword.contains(t) {
            let i = choose|i: int| 0 <= i < keyword.len() && keyword[i] == t;
            assert((vector + keyword)[vector.len() + i] == t);
        }
    }
}

/// A search without a vector database and without a full-text index is refused
/// before anything is asked for.
pub proof fn a_search_needs_an_index(config: AgenticSearchConfigView, query: Seq<char>)
    requires
        config.qdrant_config is None,
        config.tidb_config is None,
    ensures
        search_start(config, query) == SearchStepView::Done(
            Err(internal_error("No search mode configured"@)),
        ),
{
}

/// What a search has come to after the events, in their order.
pub open spec fn run(
    config: AgenticSearchConfigView,
    step: SearchStepView,
    events: Seq<SearchEventView>,
) -> SearchStepView
    decreases events.len(),
{
    if events.len() == 0 {
        step
    } else {
        match step {
            SearchStepView::Work(state, _) => run(
                config,
                search_next(config, state, events[0]),
                events.skip(1),
            ),
            _ => step,
        }
    }
}

proof fn lemma_run_first(
    config: AgenticSearchConfigView,
    state: SearchStateView,
    work: SearchWorkView,
    event: SearchEventView,
    rest: Seq<SearchEventView>,
)
    ensures
        run(config, SearchStepView::Work(state, work), seq![event] + rest) == run(
            config,
            search_next(config, state, event),
            rest,
        ),
{
    assert((seq![event] + rest).skip(1) =~= rest);
}

/// The events of a vector search: the embedding, then the points.
pub open spec fn vector_events(
    embedding: HttpOutcomeView,
    points: HttpOutcomeView,
) -> Seq<SearchEventView> {
    seq![SearchEventView::Sent(embedding)] + seq![SearchEventView::Sent(points)]
}

/// The events of a keyword search: the keywords, then a connection, the version,
/// the number of tables and the rows.
pub open spec fn keyword_events(
    keywords: HttpOutcomeView,
    version: Seq<char>,
    tables: i32,
    rows: Seq<Seq<char>>,
) -> Seq<SearchEventView> {
    seq![SearchEventView::Sent(keywords)] + (seq![SearchEventView::Connected(Ok(()))] + (seq![
        SearchEventView::Version(Ok(Some(version))),
    ] + (seq![SearchEventView::Count(Ok(Some(tables)))] + seq![SearchEventView::Rows(Ok(rows))])))
}

proof fn lemma_vector_run(
    config: AgenticSearchConfigView,
    query: Seq<char>,
    embedding: HttpOutcomeView,
    points: HttpOutcomeView,
    sources: Seq<Seq<char>>,
    rest: Seq<SearchEventView>,
)
    requires
        config.embedding_service is Some,
        config.qdrant_config is Some,
        embedding_result(embedding) is Ok,
        points_result(points) matches Some(Ok(hits)) && sources_of(
            hits,
            config.qdrant_config.unwrap().payload_source,
        ) == Some(sources),
    ensures
        run(config, search_start(config, query), vector_events(embedding, points) + rest) == run(
            config,
            after_vector_search(config, query, sources),
            rest,
        ),
{
    let first = SearchEventView::Sent(embedding);
    let second = SearchEventView::Sent(points);
    assert(vector_events(embedding, points) + rest =~= seq![first] + (seq![second] + rest));
    let start = search_start(config, query);
    let next = search_next(config, start->Work_0, first);
    lemma_run_first(config, start->Work_0, start->Work_1, first, seq![second] + rest);
    lemma_run_first(config, next->Work_0, next->Work_1, second, rest);
    assert(sources.len() == 0 ==> sources =~= Seq::empty());
}

proof fn lemma_keyword_run(
    config: AgenticSearchConfigView,
    query: Seq<char>,
    vector: Seq<Seq<char>>,
    keywords: HttpOutcomeView,
    version: Seq<char>,
    tables: i32,
    rows: Seq<Seq<char>>,
)
    requires
        config.embedding_service is Some,
        config.tidb_config is Some,
        keywords_result(keywords) matches Some(Ok(_)),
        tables != 0,
    ensures
        run(
            config,
            keyword_search_step(config, query, vector),
            keyword_events(keywords, version, tables, rows),
        ) == sources_step(combined(vector, rows)),
{
    let sent = SearchEventView::Sent(keywords);
    let connected = SearchEventView::Connected(Ok(()));
    let told = SearchEventView::Version(Ok(Some(version)));
    let counted = SearchEventView::Count(Ok(Some(tables)));
    let found = SearchEventView::Rows(Ok(rows));
    let none: Seq<SearchEventView> = Seq::empty();
    assert(seq![found] =~= seq![found] + none);
    let s1 = keyword_search_step(config, query, vector);
    let s2 = search_next(config, s1->Work_0, sent);
    let s3 = search_next(config, s2->Work_0, connected);
    let s4 = search_next(config, s3->Work_0, told);
    let s5 = search_next(config, s4->Work_0, counted);
    let rest5 = seq![found] + none;
    let rest4 = seq![counted] + rest5;
    let rest3 = seq![told] + rest4;
    let rest2 = seq![connected] + rest3;
    lemma_run_first(config, s1->Work_0, s1->Work_1, sent, rest2);
    lemma_run_first(config, s2->Work_0, s2->Work_1, connected, rest3);
    lemma_run_first(config, s3->Work_0, s3->Work_1, told, rest4);
    lemma_run_first(config, s4->Work_0, s4->Work_1, counted, rest5);
    lemma_run_first(config, s5->Work_0, s5->Work_1, found, none);
}

/// With the vector database alone, a search is answered with the sources of the
/// points near the query's embedding, one to a line.
pub proof fn a_vector_search_gives_the_sources(
    config: AgenticSearchConfigView,
    query: Seq<char>,
    embedding: HttpOutcomeView,
    points: HttpOutcomeView,
    sources: Seq<Seq<char>>,
)
    requires
        config.tidb_config is None,
        config.embedding_service is Some,
        config.qdrant_config is Some,
        embedding_result(embedding) is Ok,
        points_result(points) matches Some(Ok(hits)) && sources_of(
            hits,
            config.qdrant_config.unwrap().payload_source,
        ) == Some(sources),
    ensures
        run(config, search_start(config, query), vector_events(embedding, points))
            == SearchStepView::Done(Ok(joined(sources, "\n"@))),
{
    let none: Seq<SearchEventView> = Seq::empty();
    assert(vector_events(embedding, points) + none =~= vector_events(embedding, points));
    lemma_vector_run(config, query, embedding, points, sources, none);
}

/// With the full-text index alone, a search is answered with the rows that match
/// the query's keywords, one to a line.
pub proof fn a_keyword_search_gives_the_rows(
    config: AgenticSearchConfigView,
    query: Seq<char>,
    keywords: HttpOutcomeView,
    version: Seq<char>,
    tables: i32,
    rows: Seq<Seq<char>>,
)
    requires
        config.qdrant_config is None,
        config.embedding_service is Some,
        config.tidb_config is Some,
        keywords_result(keywords) matches Some(Ok(_)),
        tables != 0,
    ensures
        run(
            config,
            search_start(config, query),
            keyword_events(keywords, version, tables, rows),
        ) == SearchStepView::Done(Ok(joined(rows, "\n"@))),
{
    lemma_keyword_run(config, query, Seq::empty(), keywords, version, tables, rows);
}

/// With both, the vector search comes first and the keyword search after it, and
/// the answer is what the two found together, one to a line.
pub proof fn a_combined_search_gives_both(
    config: AgenticSearchConfigView,
    query: Seq<char>,
    embedding: HttpOutcomeView,
    points: HttpOutcomeView,
    sources: Seq<Seq<char>>,
    keywords: HttpOutcomeView,
    version: Seq<char>,
    tables: i32,
    rows: Seq<Seq<char>>,
)
    requires
        config.embedding_service is Some,
        config.qdrant_config is Some,
        config.tidb_config is Some,
        embedding_result(embedding) is Ok,
        points_result(points) matches Some(Ok(hits)) && sources_of(
            hits,
            config.qdrant_config.unwrap().payload_source,
        ) == Some(sources),
        keywords_result(keywords) matches Some(Ok(_)),
        tables != 0,
    ensures
        run(
            config,
            search_start(config, query),
            vector_events(embedding, points) + keyword_events(keywords, version, tables, rows),
        ) == SearchStepView::Done(Ok(joined(combined(sources, rows), "\n"@))),
{
    let rest = keyword_events(keywords, version, tables, rows);
    lemma_vector_run(config, query, embedding, points, sources, rest);
    lemma_keyword_run(config, query, sources, keywords, version, tables, rows);
}

/// The text of the failure that an event reports.
pub open spec fn failure(event: SearchEventView) -> Option<Seq<char>> {
    match event {
        SearchEventView::Sent(HttpOutcomeView::SendFailed(e)) => Some(e),
        SearchEventView::Connected(Err(e)) => Some(e),
        SearchEventView::Version(Err(e)) => Some(e),
        SearchEventView::Count(Err(e)) => Some(e),
        SearchEventView::Rows(Err(e)) => Some(e),
        _ => None,
    }
}

/// Whether the event is of the kind that the state waits for.
pub open spec fn awaited(state: SearchStateView, event: SearchEventView) -> bool {
    match state {
        SearchStateView::Embedding { .. } => event is Sent,
        SearchStateView::Points { .. } => event is Sent,
        SearchStateView::Keywords { .. } => event is Sent,
        SearchStateView::Connection { .. } => event is Connected,
        SearchStateView::Version { .. } => event is Version,
        SearchStateView::Table { .. } => event is Count,
        SearchStateView::Rows { .. } => event is Rows,
    }
}

/// What goes wrong at the step that the state waits for, in words.
pub open spec fn what_failed(state: SearchStateView) -> Seq<char> {
    match state {
        SearchStateView::Embedding { .. } => "Failed to send the embedding request: "@,
        SearchStateView::Points { .. } => "Failed to search points: "@,
        SearchStateView::Keywords { .. } => "Failed to send the chat request: "@,
        SearchStateView::Connection { .. } => "Failed to get connection: "@,
        SearchStateView::Version { .. } => "Failed to query version: "@,
        SearchStateView::Table { .. } => "Failed to check table: "@,
        SearchStateView::Rows { .. } => "Failed to execute search: "@,
    }
}

/// Work that fails ends the search, and what was found before is not answered: the
/// error tells which work failed, and why.
pub proof fn failed_work_ends_the_search(
    config: AgenticSearchConfigView,
    state: SearchStateView,
    event: SearchEventView,
    why: Seq<char>,
)
    requires
        state is Table ==> config.tidb_config is Some,
        awaited(state, event),
        failure(event) == Some(why),
    ensures
        search_next(config, state, event) == SearchStepView::Done(
            Err(internal_error(what_failed(state) + why)),
        ),
{
}

/// The number of pieces of work of which a search still awaits the result, at most.
pub open spec fn work_left(state: SearchStateView) -> nat {
    match state {
        SearchStateView::Embedding { .. } => 7,
        SearchStateView::Points { .. } => 6,
        SearchStateView::Keywords { .. } => 5,
        SearchStateView::Connection { .. } => 4,
        SearchStateView::Version { .. } => 3,
        SearchStateView::Table { .. } => 2,
        SearchStateView::Rows { .. } => 1,
    }
}

/// Every event brings a search nearer to its end, which it reaches after seven
/// pieces of work at most.
pub proof fn every_search_ends(
    config: AgenticSearchConfigView,
    query: Seq<char>,
    state: SearchStateView,
    event: SearchEventView,
)
    ensures
        search_start(config, query) matches SearchStepView::Work(first, _) ==> work_left(first)
            <= 7,
        search_next(config, state, event) matches SearchStepView::Work(next, _) ==> work_left(next)
            < work_left(state),
        work_left(state) >= 1,
{
}

/// Every source that either search finds is a line of the answer, however many there
/// are, and the answer is made of such lines only.
pub proof fn every_source_found_is_a_line_of_the_answer(
    vector: Seq<Seq<char>>,
    keyword: Seq<Seq<char>>,
    source: Seq<char>,
)
    requires
        vector.contains(source) || keyword.contains(source),
    ensures
        sources_step(combined(vector, keyword)) matches SearchStepView::Done(Ok(text)) && is_line(
            text,
            source,
        ) && text == joined(combined(vector, keyword), "\n"@),
{
    combining_gives_the_union(vector, keyword);
    let sources = combined(vector, keyword);
    assert(sources.contains(source));
    let i = choose|i: int| 0 <= i < sources.len() && sources[i] == source;
    every_part_is_a_line(sources, i);
}

/// A search that found sources is answered with all of them, each a line.
pub proof fn every_source_is_a_line_of_the_answer(sources: Seq<Seq<char>>, i: int)
    requires
        0 <= i < sources.len(),
    ensures
        sources_step(sources) matches SearchStepView::Done(Ok(text)) && is_line(text, sources[i])
            && text.len() == total_length(sources) + (sources.len() - 1),
{
    every_part_is_a_line(sources, i);
    joining_adds_only_separators(sources, "\n"@);
    reveal_strlit("\n");
    assert((sources.len() - 1) * "\n"@.len() == sources.len() - 1) by (nonlinear_arith)
        requires
            "\n"@.len() == 1,
    ;
}

/// A search with a vector database begins with the embedding of its query, one with
/// the full-text index alone with the keywords of its query; both ask the embedding
/// service, and keep the query or nothing for later.
pub proof fn a_search_begins_with_its_query(
    config: AgenticSearchConfigView,
    query: Seq<char>,
    request: HttpRequestView,
)
    ensures
        config.qdrant_config is Some && embedding_request(config.embedding_service, query) == Ok::<
            HttpRequestView,
            McpErrorView,
        >(request) ==> search_start(config, query) == SearchStepView::Work(
            SearchStateView::Embedding { query },
            SearchWorkView::Send(request),
        ),
        config.qdrant_config is Some && config.embedding_service is None ==> search_start(
            config,
            query,
        ) == SearchStepView::Done(
            Err(internal_error("Embedding service URL is not configured"@)),
        ),
        config.qdrant_config is None && config.tidb_config is Some ==> search_start(config, query)
            == (match config.embedding_service {
            Some(service) => SearchStepView::Work(
                SearchStateView::Keywords { vector: Seq::empty() },
                SearchWorkView::Send(keyword_request(service, query)),
            ),
            None => SearchStepView::Unanswerable,
        }),
        config.qdrant_config is None && config.tidb_config is None ==> search_start(config, query)
            == SearchStepView::Done(
                Err(internal_error("No search mode configured"@)),
            ),
{
}

/// The first embedding of the reply, whole, is looked up in the vector database, with
/// the configured limit and threshold; the query is kept for the keyword search.
pub proof fn the_embedding_of_the_reply_is_looked_up(
    config: AgenticSearchConfigView,
    query: Seq<char>,
    status: u16,
    body: Seq<u8>,
    embeddings: Seq<Seq<u64>>,
)
    requires
        embeddings_text(body) == Ok::<Seq<Seq<u64>>, Seq<char>>(embeddings),
        embeddings.len() > 0,
    ensures
        search_next(
            config,
            SearchStateView::Embedding { query },
            SearchEventView::Sent(HttpOutcomeView::Reply(status, body)),
        ) == (match config.qdrant_config {
            Some(qdrant) => SearchStepView::Work(
                SearchStateView::Points { query },
                SearchWorkView::Send(
                    points_request(
                        qdrant,
                        embeddings[0],
                        config.limit,
                        config.score_threshold,
                    ),
                ),
            ),
            None => SearchStepView::Done(
                Err(internal_error("Qdrant config is not set"@)),
            ),
        }),
{
}

/// The sources of all the points that the reply lists are the answer, or go along
/// into the keyword search for the same query where the full-text index is
/// configured.
pub proof fn the_points_of_the_reply_give_the_sources(
    config: AgenticSearchConfigView,
    qdrant: QdrantConfigView,
    query: Seq<char>,
    status: u16,
    body: Seq<u8>,
    json: JsonView,
    items: Seq<JsonView>,
    sources: Seq<Seq<char>>,
)
    requires
        config.qdrant_config == Some(qdrant),
        200 <= status < 300,
        json_text(body) == Some(json),
        json.get("result"@) == Some(JsonView::Array(items)),
        sources.len() == items.len(),
        forall|i: int|
            0 <= i < items.len() ==> {
                &&& hit_shape(#[trigger] items[i])
                &&& items[i].get("payload"@) matches Some(payload)
                &&& payload.get(qdrant.payload_source) == Some(JsonView::Text(sources[i]))
            },
    ensures
        search_next(
            config,
            SearchStateView::Points { query },
            SearchEventView::Sent(HttpOutcomeView::Reply(status, body)),
        ) == (match (config.tidb_config, config.embedding_service) {
            (None, _) => SearchStepView::Done(Ok(joined(sources, "\n"@))),
            (Some(_), Some(service)) => SearchStepView::Work(
                SearchStateView::Keywords { vector: sources },
                SearchWorkView::Send(keyword_request(service, query)),
            ),
            (Some(_), None) => SearchStepView::Unanswerable,
        }),
{
    a_search_finds_the_points_of_the_reply(status, body, json, items);
    let hits = points_result(HttpOutcomeView::Reply(status, body)).unwrap()->Ok_0;
    assert forall|i: int| 0 <= i < hits.len() implies JsonView::Object(
        (#[trigger] hits[i]).payload,
    ).get(qdrant.payload_source) == Some(JsonView::Text(sources[i])) by {
        assert(hit_shape(items[i]));
        assert(hits[i] == hit_of(items[i]));
    }
    every_point_gives_its_source(hits, qdrant.payload_source, sources);
    assert(sources.len() == 0 ==> sources =~= Seq::empty());
}

/// A point without a source leaves the search without an answer, even where other
/// points have one.
pub proof fn a_point_without_a_source_has_no_answer(
    config: AgenticSearchConfigView,
    qdrant: QdrantConfigView,
    query: Seq<char>,
    status: u16,
    body: Seq<u8>,
    json: JsonView,
    items: Seq<JsonView>,
    payload: JsonView,
    i: int,
)
    requires
        config.qdrant_config == Some(qdrant),
        200 <= status < 300,
        json_text(body) == Some(json),
        json.get("result"@) == Some(JsonView::Array(items)),
        forall|k: int| 0 <= k < items.len() ==> hit_shape(#[trigger] items[k]),
        0 <= i < items.len(),
        items[i].get("payload"@) == Some(payload),
        !(payload.get(qdrant.payload_source) matches Some(JsonView::Text(_))),
    ensures
        search_next(
            config,
            SearchStateView::Points { query },
            SearchEventView::Sent(HttpOutcomeView::Reply(status, body)),
        ) == SearchStepView::Unanswerable,
{
    a_search_finds_the_points_of_the_reply(status, body, json, items);
    let hits = points_result(HttpOutcomeView::Reply(status, body)).unwrap()->Ok_0;
    assert(hits[i] == hit_of(items[i]));
    if let Some(sources) = sources_of(hits, qdrant.payload_source) {
        every_point_gives_its_source(hits, qdrant.payload_source, sources);
        assert(JsonView::Object(hits[i].payload).get(qdrant.payload_source) == Some(
            JsonView::Text(sources[i]),
        ));
    }
}

/// The keywords are the content of the first choice of the reply; with them the
/// full-text index is asked, step by step, for a connection, its version, the table
/// and the rows, and what the vector search found goes along unchanged.
pub proof fn the_keywords_of_the_reply_are_searched(
    config: AgenticSearchConfigView,
    tidb: TidbConfigView,
    vector: Seq<Seq<char>>,
    status: u16,
    body: Seq<u8>,
    contents: Seq<Option<Seq<char>>>,
    keywords: Seq<char>,
    version: Seq<char>,
    tables: i32,
)
    requires
        config.tidb_config == Some(tidb),
        chat_text(body) == Some(contents),
        contents.len() > 0,
        contents[0] == Some(keywords),
        tables != 0,
    ensures
        search_next(
            config,
            SearchStateView::Keywords { vector },
            SearchEventView::Sent(HttpOutcomeView::Reply(status, body)),
        ) == SearchStepView::Work(
            SearchStateView::Connection { vector, keywords },
            SearchWorkView::Connect,
        ),
        search_next(
            config,
            SearchStateView::Connection { vector, keywords },
            SearchEventView::Connected(Ok(())),
        ) == SearchStepView::Work(
            SearchStateView::Version { vector, keywords },
            SearchWorkView::QueryVersion("SELECT VERSION()"@),
        ),
        search_next(
            config,
            SearchStateView::Version { vector, keywords },
            SearchEventView::Version(Ok(Some(version))),
        ) == SearchStepView::Work(
            SearchStateView::Table { vector, keywords },
            SearchWorkView::QueryCount(table_sql(tidb)),
        ),
        search_next(
            config,
            SearchStateView::Table { vector, keywords },
            SearchEventView::Count(Ok(Some(tables))),
        ) == SearchStepView::Work(
            SearchStateView::Rows { vector },
            SearchWorkView::QueryRows(hits_sql(tidb, keywords, config.limit)),
        ),
{
}

/// The rows of the keyword search and the sources of the vector search before it are
/// answered together.
pub proof fn the_rows_are_answered_with_the_sources(
    config: AgenticSearchConfigView,
    vector: Seq<Seq<char>>,
    rows: Seq<Seq<char>>,
)
    ensures
        search_next(config, SearchStateView::Rows { vector }, SearchEventView::Rows(Ok(rows)))
            == SearchStepView::Done(Ok(joined(combined(vector, rows), "\n"@))),
{
}

/// What is missing ends a search with an error that says so, and nothing that was
/// found before is answered: a configured index, an embedding, a version, the table.
pub proof fn what_is_missing_ends_the_search(
    config: AgenticSearchConfigView,
    vector: Seq<Seq<char>>,
    keywords: Seq<char>,
    query: Seq<char>,
    status: u16,
    body: Seq<u8>,
    embeddings: Seq<Seq<u64>>,
    contents: Seq<Option<Seq<char>>>,
)
    ensures
        embeddings_text(body) == Ok::<Seq<Seq<u64>>, Seq<char>>(embeddings) && embeddings.len()
            == 0 ==> search_next(
            config,
            SearchStateView::Embedding { query },
            SearchEventView::Sent(HttpOutcomeView::Reply(status, body)),
        ) == SearchStepView::Done(
            Err(internal_error("No embeddings returned"@)),
        ),
        chat_text(body) == Some(contents) && (contents.len() == 0 || contents[0] is None)
            ==> search_next(
            config,
            SearchStateView::Keywords { vector },
            SearchEventView::Sent(HttpOutcomeView::Reply(status, body)),
        ) == SearchStepView::Unanswerable,
        chat_text(body) == Some(contents) && contents.len() > 0 && contents[0] is Some
            && config.tidb_config is None ==> search_next(
            config,
            SearchStateView::Keywords { vector },
            SearchEventView::Sent(HttpOutcomeView::Reply(status, body)),
        ) == SearchStepView::Done(
            Err(internal_error("TiDB config is not set"@)),
        ),
        chat_text(body) is None ==> search_next(
            config,
            SearchStateView::Keywords { vector },
            SearchEventView::Sent(HttpOutcomeView::Reply(status, body)),
        ) == SearchStepView::Done(
            Err(
                internal_error(
                    "Failed to parse the chat response: "@ + "error decoding response body"@,
                ),
            ),
        ),
        search_next(
            config,
            SearchStateView::Version { vector, keywords },
            SearchEventView::Version(Ok(None)),
        ) == SearchStepView::Done(
            Err(internal_error("Failed to query version"@)),
        ),
        config.tidb_config matches Some(tidb) ==> {
            let missing = SearchStepView::Done(
                Err(
                    internal_error(
                        "Not found table `"@ + tidb.table_name + "` in database `"@
                            + tidb.database + "`"@,
                    ),
                ),
            );
            let state = SearchStateView::Table { vector, keywords };
            &&& search_next(config, state, SearchEventView::Count(Ok(None))) == missing
            &&& search_next(config, state, SearchEventView::Count(Ok(Some(0)))) == missing
        },
{
}

/// A reply that is no answer of the vector database ends the search as that reply
/// does: with its error, or without an answer.
pub proof fn what_the_database_says_ends_the_search(
    config: AgenticSearchConfigView,
    query: Seq<char>,
    outcome: HttpOutcomeView,
    e: McpErrorView,
)
    ensures
        points_result(outcome) == Some(Err::<Seq<QdrantSearchHitView>, McpErrorView>(e))
            ==> search_next(
            config,
            SearchStateView::Points { query },
            SearchEventView::Sent(outcome),
        ) == SearchStepView::Done(Err(e)),
        points_result(outcome) is None ==> search_next(
            config,
            SearchStateView::Points { query },
            SearchEventView::Sent(outcome),
        ) == SearchStepView::Unanswerable,
        embedding_result(outcome) == Err::<Seq<u64>, McpErrorView>(e) ==> search_next(
            config,
            SearchStateView::Embedding { query },
            SearchEventView::Sent(outcome),
        ) == SearchStepView::Done(Err(e)),
{
}

/// Work that fails is told in the words for that work, followed by why it failed.
pub proof fn failed_work_is_told_in_its_words(
    config: AgenticSearchConfigView,
    tidb: TidbConfigView,
    query: Seq<char>,
    vector: Seq<Seq<char>>,
    keywords: Seq<char>,
    why: Seq<char>,
)
    requires
        config.tidb_config == Some(tidb),
    ensures
        ({
            let unsent = SearchEventView::Sent(HttpOutcomeView::SendFailed(why));
            &&& search_next(config, SearchStateView::Embedding { query }, unsent)
                == SearchStepView::Done(
                Err(internal_error("Failed to send the embedding request: "@ + why)),
            )
            &&& search_next(config, SearchStateView::Points { query }, unsent)
                == SearchStepView::Done(
                Err(internal_error("Failed to search points: "@ + why)),
            )
            &&& search_next(config, SearchStateView::Keywords { vector }, unsent)
                == SearchStepView::Done(
                Err(internal_error("Failed to send the chat request: "@ + why)),
            )
            &&& search_next(
                config,
                SearchStateView::Connection { vector, keywords },
                SearchEventView::Connected(Err(why)),
            ) == SearchStepView::Done(
                Err(internal_error("Failed to get connection: "@ + why)),
            )
            &&& search_next(
                config,
                SearchStateView::Version { vector, keywords },
                SearchEventView::Version(Err(why)),
            ) == SearchStepView::Done(
                Err(internal_error("Failed to query version: "@ + why)),
            )
            &&& search_next(
                config,
                SearchStateView::Table { vector, keywords },
                SearchEventView::Count(Err(why)),
            ) == SearchStepView::Done(
                Err(internal_error("Failed to check table: "@ + why)),
            )
            &&& search_next(
                config,
                SearchStateView::Rows { vector },
                SearchEventView::Rows(Err(why)),
            ) == SearchStepView::Done(
                Err(internal_error("Failed to execute search: "@ + why)),
            )
        }),
{
}

/// What was not asked for leaves a search without an answer.
pub proof fn only_what_was_asked_for_counts(
    config: AgenticSearchConfigView,
    state: SearchStateView,
    event: SearchEventView,
)
    requires
        match state {
            SearchStateView::Connection { .. } => !(event is Connected),
            SearchStateView::Version { .. } => !(event is Version),
            SearchStateView::Table { .. } => !(event is Count),
            SearchStateView::Rows { .. } => !(event is Rows),
            _ => !(event is Sent),
        },
    ensures
        search_next(config, state, event) == SearchStepView::Unanswerable,
{
}

/// The model of how far a search has come shows the query or the keywords, and every
/// source that it has found.
pub proof fn a_state_shows_its_parts(state: SearchState)
    ensures
        match (state, state@) {
            (SearchState::Embedding { query }, SearchStateView::Embedding { query: q }) => q
                == query@,
            (SearchState::Points { query }, SearchStateView::Points { query: q }) => q == query@,
            (
                SearchState::Keywords { vector },
                SearchStateView::Keywords { vector: v },
            ) => (v.len() == vector@.len() && forall|i: int|
                0 <= i < vector@.len() ==> #[trigger] v[i] == vector@[i]@),
            (
                SearchState::Connection { vector, keywords },
                SearchStateView::Connection { vector: v, keywords: k },
            ) => (v.len() == vector@.len() && forall|i: int|
                0 <= i < vector@.len() ==> #[trigger] v[i] == vector@[i]@) && k == keywords@,
            (
                SearchState::Version { vector, keywords },
                SearchStateView::Version { vector: v, keywords: k },
            ) => (v.len() == vector@.len() && forall|i: int|
                0 <= i < vector@.len() ==> #[trigger] v[i] == vector@[i]@) && k == keywords@,
            (
                SearchState::Table { vector, keywords },
                SearchStateView::Table { vector: v, keywords: k },
            ) => (v.len() == vector@.len() && forall|i: int|
                0 <= i < vector@.len() ==> #[trigger] v[i] == vector@[i]@) && k == keywords@,
            (
                SearchState::Rows { vector },
                SearchStateView::Rows { vector: v },
            ) => (v.len() == vector@.len() && forall|i: int|
                0 <= i < vector@.len() ==> #[trigger] v[i] == vector@[i]@),
            _ => false,
        },
{
}

/// The models of the work, of what came of it, and of a step show every text, number
/// and row as it is.
pub proof fn a_search_step_shows_its_parts(work: SearchWork, event: SearchEvent, step: SearchStep)
    ensures
        match work {
            SearchWork::Send(request) => work@ == SearchWorkView::Send(request@),
            SearchWork::Connect => work@ == SearchWorkView::Connect,
            SearchWork::QueryVersion(sql) => work@ == SearchWorkView::QueryVersion(sql@),
            SearchWork::QueryCount(sql) => work@ == SearchWorkView::QueryCount(sql@),
            SearchWork::QueryRows(sql) => work@ == SearchWorkView::QueryRows(sql@),
        },
        match event {
            SearchEvent::Sent(outcome) => event@ == SearchEventView::Sent(outcome@),
            SearchEvent::Connected(Ok(())) => event@ == SearchEventView::Connected(Ok(())),
            SearchEvent::Connected(Err(e)) => event@ == SearchEventView::Connected(Err(e@)),
            SearchEvent::Version(Ok(Some(version))) => event@ == SearchEventView::Version(
                Ok(Some(version@)),
            ),
            SearchEvent::Version(Ok(None)) => event@ == SearchEventView::Version(Ok(None)),
            SearchEvent::Version(Err(e)) => event@ == SearchEventView::Version(Err(e@)),
            SearchEvent::Count(Ok(count)) => event@ == SearchEventView::Count(Ok(count)),
            SearchEvent::Count(Err(e)) => event@ == SearchEventView::Count(Err(e@)),
            SearchEvent::Rows(Ok(rows)) => event@ matches SearchEventView::Rows(Ok(shown))
                && shown.len() == rows@.len() && forall|i: int|
                0 <= i < rows@.len() ==> #[trigger] shown[i] == rows@[i].content@,
            SearchEvent::Rows(Err(e)) => event@ == SearchEventView::Rows(Err(e@)),
        },
        match step {
            SearchStep::Work(state, next) => step@ == SearchStepView::Work(state@, next@),
            SearchStep::Done(Ok(text)) => step@ == SearchStepView::Done(Ok(text@)),
            SearchStep::Done(Err(e)) => step@ == SearchStepView::Done(Err(e@)),
            SearchStep::Unanswerable => step@ == SearchStepView::Unanswerable,
        },
{
}

} // verus!
