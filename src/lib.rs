//! Client library for the certified radio equipment search service: query
//! builders for its three endpoints, the textual repair of the list
//! endpoint's malformed body, and decoding of the responses.
mod text;
pub mod repair;
pub mod json;
pub mod scalar;
pub mod error;
pub mod query;
pub mod num;
pub mod list;
pub mod file;
