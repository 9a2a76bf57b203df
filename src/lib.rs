//! A layered CRUD core for a single "todo" resource: a persistence gateway
//! over a table with unique titles, a domain service that turns raw store
//! failures into caller-facing reasons, and request handlers that shape
//! status codes and response envelopes.

pub mod model;
pub mod repository;
pub mod service;
pub mod handler;
pub mod lemmas;
