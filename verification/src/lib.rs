//! Decisions of a desktop front end for a command-line media downloader:
//! which commands to run, how their output is read, and what is reported back.
//!
//! Nothing here starts a process, sends a request or touches a file. Each
//! operation comes as a pair: a function that says what to run or ask, and a
//! function that takes what came back and says what it means.
//!
//! - `metadata`: the description of one media item, from the tool's JSON.
//! - `download`: the command of a download and the two snapshots reported.
//! - `drives`: removable storage, from the listing of one of three platforms.
//! - `subscription`: what to do with the answer of the subscription service.
//! - `files`: where a copied file goes.
//! - `commands`: the greeting and the default folder.
//! - `records`, `tool`: the values that the operations take and give.
//! - `text`, `json`, `ident`: text primitives, JSON documents, identifiers.

pub mod commands;
pub mod download;
pub mod drives;
pub mod files;
pub mod ident;
pub mod json;
pub mod metadata;
pub mod records;
pub mod subscription;
pub mod text;
pub mod tool;

pub use download::{AudioQuality, DownloadReport, DownloadStart};
pub use drives::{Platform, Table};
pub use records::{DownloadInfo, DownloadProgress, DownloadStatus, SubscriptionStatus, USBDrive};
pub use subscription::ResponseAction;
pub use tool::{ToolCommand, ToolEvent, ToolOutput};
