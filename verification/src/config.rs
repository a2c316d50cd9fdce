//! What a search server is set up with.

use vstd::prelude::*;

verus! {

/// A model service that speaks the chat and embedding protocols.
#[derive(Debug, Clone, PartialEq, Eq)]
pub struct ServiceConfig {
    pub url: String,
    pub api_key: Option<String>,
}

/// A Qdrant vector database.
#[derive(Debug, Clone, PartialEq, Eq)]
pub struct QdrantConfig {
    pub base_url: String,
    pub api_key: Option<String>,
    pub collection: String,
    /// The member of a point's payload that holds the source text.
    pub payload_source: String,
}

/// A TiDB table with a full-text index.
#[derive(Debug, Clone, PartialEq, Eq)]
pub struct TidbConfig {
    pub database: String,
    pub table_name: String,
}

/// The configuration of a search server.
#[derive(Debug, Clone, PartialEq, Eq)]
pub struct AgenticSearchConfig {
    pub qdrant_config: Option<QdrantConfig>,
    pub tidb_config: Option<TidbConfig>,
    /// The most hits that a search asks for.
    pub limit: u64,
    /// The least score that a vector search asks for, as the bits of a double.
    pub score_threshold: u64,
    /// A service for chats. No search uses it.
    pub chat_service: Option<ServiceConfig>,
    /// The service that computes embeddings and extracts keywords.
    pub embedding_service: Option<ServiceConfig>,
}

/// The mathematical model of a `ServiceConfig`.
pub struct ServiceConfigView {
    pub url: Seq<char>,
    pub api_key: Option<Seq<char>>,
}

/// The mathematical model of a `QdrantConfig`.
pub struct QdrantConfigView {
    pub base_url: Seq<char>,
    pub api_key: Option<Seq<char>>,
    pub collection: Seq<char>,
    pub payload_source: Seq<char>,
}

/// The mathematical model of a `TidbConfig`.
pub struct TidbConfigView {
    pub database: Seq<char>,
    pub table_name: Seq<char>,
}

/// The mathematical model of an `AgenticSearchConfig`.
pub struct AgenticSearchConfigView {
    pub qdrant_config: Option<QdrantConfigView>,
    pub tidb_config: Option<TidbConfigView>,
    pub limit: u64,
    pub score_threshold: u64,
    pub chat_service: Option<ServiceConfigView>,
    pub embedding_service: Option<ServiceConfigView>,
}

impl DeepView for ServiceConfig {
    type V = ServiceConfigView;

    open spec fn deep_view(&self) -> ServiceConfigView {
        ServiceConfigView { url: self.url@, api_key: self.api_key.deep_view() }
    }
}

impl DeepView for QdrantConfig {
    type V = QdrantConfigView;

    open spec fn deep_view(&self) -> QdrantConfigView {
        QdrantConfigView {
            base_url: self.base_url@,
            api_key: self.api_key.deep_view(),
            collection: self.collection@,
            payload_source: self.payload_source@,
        }
    }
}

impl DeepView for TidbConfig {
    type V = TidbConfigView;

    open spec fn deep_view(&self) -> TidbConfigView {
        TidbConfigView { database: self.database@, table_name: self.table_name@ }
    }
}

impl DeepView for AgenticSearchConfig {
    type V = AgenticSearchConfigView;

    open spec fn deep_view(&self) -> AgenticSearchConfigView {
        AgenticSearchConfigView {
            qdrant_config: self.qdrant_config.deep_view(),
            tidb_config: self.tidb_config.deep_view(),
            limit: self.limit,
            score_threshold: self.score_threshold,
            chat_service: self.chat_service.deep_view(),
            embedding_service: self.embedding_service.deep_view(),
        }
    }
}

/// The model of a configuration shows every setting as it is.
pub proof fn a_configuration_shows_its_settings(config: AgenticSearchConfig)
    ensures
        config.deep_view().limit == config.limit,
        config.deep_view().score_threshold == config.score_threshold,
        match config.qdrant_config {
            Some(qdrant) => config.deep_view().qdrant_config matches Some(shown) && shown.base_url
                == qdrant.base_url@ && shown.collection == qdrant.collection@
                && shown.payload_source == qdrant.payload_source@ && (match qdrant.api_key {
                Some(key) => shown.api_key == Some(key@),
                None => shown.api_key is None,
            }),
            None => config.deep_view().qdrant_config is None,
        },
        match config.tidb_config {
            Some(tidb) => config.deep_view().tidb_config matches Some(shown) && shown.database
                == tidb.database@ && shown.table_name == tidb.table_name@,
            None => config.deep_view().tidb_config is None,
        },
        match config.embedding_service {
            Some(service) => config.deep_view().embedding_service matches Some(shown) && shown.url
                == service.url@ && (match service.api_key {
                Some(key) => shown.api_key == Some(key@),
                None => shown.api_key is None,
            }),
            None => config.deep_view().embedding_service is None,
        },
        match config.chat_service {
            Some(service) => config.deep_view().chat_service matches Some(shown) && shown.url
                == service.url@ && (match service.api_key {
                Some(key) => shown.api_key == Some(key@),
                None => shown.api_key is None,
            }),
            None => config.deep_view().chat_service is None,
        },
{
}

} // verus!
