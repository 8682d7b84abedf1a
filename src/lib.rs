//! Core of an API client: the request execution engine (URL and query
//! assembly, header assembly, authentication injection, body encoding and the
//! shaping of transport outcomes into a uniform result), together with the
//! data model and the decisions behind storage, Postman import and export,
//! and encryption of secret values.

pub mod text;
pub mod request;
pub mod encoding;
pub mod headers;
pub mod query;
pub mod auth;
pub mod body;
pub mod execution;
pub mod executor;
pub mod records;
pub mod postman;
pub mod import;
pub mod tree;
pub mod updates;
pub mod export;
pub mod codec;
pub mod crypto;
