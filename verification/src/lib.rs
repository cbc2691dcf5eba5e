//! Typed access to REST+JSON APIs described by an OpenAPI schema: the
//! runtime pieces (authentication, query strings, response classification)
//! and the schema inference that decides what an API client looks like.

pub mod response;
pub mod text;
pub mod query;
pub mod datatype;
pub mod auth;
pub mod json_response;
pub mod traits;
pub mod yaml;
pub mod naming;
pub mod infer;
pub mod source;
