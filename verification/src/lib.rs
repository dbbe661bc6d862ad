//! Formats structured trace events and their enclosing span hierarchy into
//! line-oriented text blocks for a severity-leveled, tag-identified log sink.
//!
//! Span fields are captured into per-span byte buffers when a span is created
//! or its fields are updated; when an event fires, the event's own fields,
//! its target and the active span chain (root first) are assembled into one
//! multi-line text block, ready to be handed to a platform log sink.

pub mod fields;
pub mod laws;
pub mod layer;
pub mod text;
