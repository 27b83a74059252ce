//! A verified bridge between a desktop user interface and a line-oriented
//! assistant CLI. The library decodes the subprocess's stream of JSON lines,
//! extracts human-readable status lines from tool-use events, accumulates
//! the final result, and keeps the one continuation-session identifier;
//! the embedding application only spawns the process and moves the bytes.

pub mod command;
pub mod json;
pub mod session;
pub mod status;
pub mod stream;
