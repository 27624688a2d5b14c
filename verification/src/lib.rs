//! Decision core of a chapter download engine.
//!
//! Every rule the engine follows — who may start, who holds a permit, when a
//! chapter may be published, how long to wait after an upstream refusal — is a
//! function here from plain values to plain values, with a contract that Verus
//! proves. The surrounding program performs the waiting, the network calls and
//! the file operations, and reports back what happened.

pub mod chapter_body;
pub mod chapter_info;
pub mod comic;
pub mod config;
pub mod dir_fmt;
pub mod dir_map;
pub mod download_manager;
pub mod driver;
pub mod export;
pub mod get_favorite_result;
pub mod image_body;
pub mod image_format;
pub mod naming;
pub mod pages;
pub mod responses;
pub mod retry;
pub mod search_result;
pub mod staging;
pub mod state;
pub mod text;
pub mod utils;
