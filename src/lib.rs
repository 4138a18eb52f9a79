//! A greeting service: one route, `GET /`, answered with a fixed text.
//!
//! The library states what the service answers; the HTTP framework that
//! binds the listener and dispatches requests lives outside it.

pub mod greeting;
pub mod route;
