//! A minimal synchronous client library for the RubyGems.org gem-metadata
//! API: build the request URL for a package name, classify the HTTP response
//! and decode its JSON body into a typed record.
//!
//! The network round trip itself is left to the caller: `SyncClient` turns a
//! package name into the URL to fetch, and turns the fetched status code and
//! body back into a `GemInfo` record or a typed `Error`.

pub mod client;
pub mod data;
pub mod decode;
pub mod json;
pub mod laws;

pub use crate::client::Error;
pub use crate::client::HttpIssue;
pub use crate::client::SyncClient;
pub use crate::data::GemDeps;
pub use crate::data::GemDevDeps;
pub use crate::data::GemInfo;
pub use crate::data::GemRunDeps;
pub use crate::json::JsonValue;
