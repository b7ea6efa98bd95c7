//! Client-side core for a remote analysis service's REST API.
//!
//! The library models one HTTP exchange as plain data (`response::HttpResponse`),
//! classifies failures into a closed error taxonomy (`error::ApiError`), exposes
//! a chainable pipeline for asserting success and decoding typed payloads
//! (`response::ApiResponse`), and drives a strategy-controlled polling loop that
//! waits for a long-running server-side job to finish (`client::ApiClient`).
//! The transport that actually performs the exchanges is injected through the
//! `client::Transport` trait; JSON bodies are taken apart with `serde_json`
//! behind the narrow trusted layer in `json`.

pub mod body;
pub mod client;
pub mod decode;
pub mod error;
pub mod json;
pub mod response;
pub mod status;
