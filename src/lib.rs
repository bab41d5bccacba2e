//! Exports a user's ranked listening data as Markdown, HTML, compact web Markdown
//! or JSON: a command buffers what the provider delivers, converts it into ranked
//! records, and renders them as one document.

pub mod model;
pub mod render;
pub mod command;
