//! Streaming extraction of one field from each record of a JSON event log.

pub mod archive;
pub mod clock;
pub mod config;
pub mod dispatch;
pub mod error;
pub mod extract;
pub mod guard;
pub mod json;
pub mod laws;
pub mod pipeline;
pub mod record;
pub mod source;
pub mod stats;
pub mod text;
pub mod types;
pub mod upload;
pub mod writer;
