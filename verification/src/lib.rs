//! Job orchestration in front of a single, expensive-to-load transcription
//! model: layered configuration, an exclusive model slot, a job registry and
//! the per-job state machine that ties them together.

pub mod catalog;
pub mod cli;
pub mod config;
pub mod error;
pub mod executor;
pub mod model;
pub mod registry;
pub mod server;
pub mod text;
