//! Event ingestion and filtering for a live JSON feed.
//!
//! Inbound events are kept in a bounded buffer that drops its oldest entry
//! when full. Each buffered text message is decoded as JSON and queried with
//! a path expression; the matched values are rendered as one line of text.

pub mod buffer;
pub mod event;
pub mod query;
pub mod render;
pub mod state;
pub mod text;
