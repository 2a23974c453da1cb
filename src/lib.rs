//! A static file and Markdown content server: request paths are resolved to
//! files under a web root, Markdown documents are rendered into complete HTML
//! pages, and every request outcome is recorded in an access log.

pub mod text;
pub mod render;
pub mod template;
pub mod config;
pub mod levels;
pub mod resolve;
pub mod logs;
pub mod handler;
pub mod cli;
