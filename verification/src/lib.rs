//! Metadata, naming and task-queue logic of the bili-sync downloader.

pub mod text;
pub mod models;
pub mod bangumi_name;
pub mod time_text;
pub mod format_arg;
pub mod xml;
pub mod regex_match;
pub mod nfo_text;
pub mod nfo;
pub mod api;
pub mod task;
pub mod cleanup;
