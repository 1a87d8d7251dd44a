//! Renders JSON-structured log lines as styled terminal output.
//!
//! Each input line is decoded against a fixed log-record schema; a line that
//! does not decode is passed through unchanged. A decoded record is rendered
//! as a header line followed by optional detail lines, each piece carrying a
//! style chosen from the record's level.

pub mod json;
pub mod record;
pub mod render;
pub mod style;
