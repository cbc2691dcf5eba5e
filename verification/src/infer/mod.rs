//! Schema inference: reading an OpenAPI schema and deciding the Rust types,
//! names and operations of the client that it describes.

pub mod schema;
pub mod path;
pub mod method;
pub mod location;
pub mod query;
pub mod params;
pub mod body;
pub mod security;
pub mod response;
pub mod datatype;
pub mod parameter;
pub mod types;
pub mod derived;
