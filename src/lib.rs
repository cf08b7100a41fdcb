//! Typed client for the MBTA V3 transit API: per-endpoint query parameter
//! allow-lists, request construction, JSON:API envelope decoding and the
//! API's date and datetime text formats.
//!
//! The library does no I/O. A caller builds a [Request] with
//! [Client::request], sends it, and hands what came back to
//! [decode_outcome] as an [HttpOutcome] whose body is a [JsonValue].

pub mod client;
pub mod error;
pub mod json;
pub mod models;
pub mod params;
pub mod text;

pub use client::{decode_envelope, decode_outcome, Client, Endpoint, HttpOutcome, Request, BASE_URL};
pub use error::{APIError, APIErrorResponse, ClientError};
pub use json::{FromJson, JsonNumber, JsonValue};
pub use params::QueryParams;
pub use models::datetime::{Date, DateTime};
pub use models::shared::{
    APIVersion, CodeKind, InvalidCode, Links, RelationshipAtom, Relationships, Resource, Response,
    RouteType, WheelchairAccessible,
};
