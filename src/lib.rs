//! A concurrent recursive file search: the decisions, matching, scanning,
//! replacing and result handling, each stated and proved. Threads, channels
//! and file access stay with the caller, which feeds these functions plain
//! values and acts on what they return.
pub mod ansi;
pub mod args;
pub mod engine;
pub mod file_type;
pub mod predicate;
pub mod replace;
pub mod request;
pub mod results;
pub mod scan;
pub mod text;
pub mod walk;
