//! A typed client for a time-tracking REST API, and the sign-in / tracking /
//! report workflow built on it. The library decides what to send and what a
//! reply means; the caller owns the HTTP transport and the file system.

pub mod api;
pub mod json;
pub mod laws;
pub mod model;
pub mod reply;
pub mod workflow;
