//! A timestamping system for research data: it watches file operations,
//! records the SHA-256 digest of the files they touch, and publishes a daily
//! hash over the recorded evidence.

pub mod text;
pub mod error;
pub mod uri;
pub mod event;
pub mod db;
pub mod inode;
pub mod hashing;
pub mod dates;
pub mod processor;
pub mod adapter;
pub mod watcher;
pub mod cli;
pub mod config;
pub mod commands;
pub mod logger;
pub mod strategy;
pub mod passthrough;
