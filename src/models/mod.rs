//! Data models for the V3 API.

pub mod alert;
pub mod datetime;
pub mod facility;
pub mod line;
pub mod prediction;
pub mod route;
pub mod route_pattern;
pub mod schedule;
pub mod service;
pub mod shape;
pub mod shared;
pub mod stop;
pub mod trip;
pub mod vehicle;

