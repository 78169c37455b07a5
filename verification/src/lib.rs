//! Catalog ingestion and download planning for a desktop application store client.
//!
//! The crate holds the decisions of the client: how raw catalog records become
//! entries that can be shown, which list is served when the remote endpoint
//! misbehaves, which download requests are refused, where a download lands,
//! when the file manager is asked to reveal a path, and how an unattended
//! installation is judged. Network, disk and process work stay with the caller,
//! who hands the outcomes in as plain values.

pub mod text;
pub mod catalog;
pub mod fetch;
pub mod error;
pub mod platform;
pub mod download;
pub mod file_manager;
pub mod install;
