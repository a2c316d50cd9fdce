//! The decisions of two Model Context Protocol servers: a travel planner that
//! asks a maps service for geocodes and driving routes, and a search server that
//! combines a vector database with a full-text index.

pub mod config;
pub mod error;
pub mod http;
pub mod json;
pub mod points;
pub mod search;
pub mod service;
pub mod text;
pub mod tidb;
pub mod tool;
pub mod travel;
