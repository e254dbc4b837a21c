//! A typed client binding for the Streak CRM REST API.
//!
//! The library holds the verified core: URL and query-string construction,
//! the retry/classification logic of the transport, and the JSON codecs for
//! the resource records (pipelines, boxes, contacts, search). The HTTP calls
//! themselves are issued by a thin driver outside this crate.

pub mod boxes;
pub mod client;
pub mod contacts;
pub mod error;
pub mod json;
pub mod pipelines;
pub mod query;
pub mod search;

pub use client::{Client, HttpResponse, Step};
pub use error::{Status, StreakError};
pub use json::JsonValue;
