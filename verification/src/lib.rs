//! Coordinated backup and restore of a Camunda Platform installation.
//!
//! The workflow engine (Zeebe), the query service (Operate) and the search
//! engine each keep their own backups. This library holds the rules that tie
//! them together: which requests are sent to which component, how the newest
//! usable backup is selected, in which order a backup is created and how a
//! restore wipes and refills the brokers' volumes. Nothing here performs I/O:
//! the workflows hand out commands and take the outcome of each command back.

pub mod apps;
pub mod common;
pub mod components;
pub mod create;
pub mod elasticsearch;
pub mod http;
pub mod jobs;
pub mod list;
pub mod operate;
pub mod restore;
pub mod results;
pub mod text;
pub mod types;
pub mod zeebe;
