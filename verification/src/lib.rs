//! A typed client core for a REST API with a uniform JSON envelope: descriptions of
//! operations become requests, and responses become typed results or structured
//! failures. Nothing here performs I/O.

pub mod endpoints;
pub mod framework;
pub mod json;
pub mod syntax;
pub mod text;
pub mod time;
