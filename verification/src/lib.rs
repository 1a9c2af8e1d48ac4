//! Boolean search-query conditions and their two JSON-like projections:
//! a generic condition tree that mirrors the AST shape, and an
//! Elasticsearch-style boolean query document.

pub mod condition;
pub mod endpoint;
pub mod es_dsl;
pub mod generic;
pub mod parser;
