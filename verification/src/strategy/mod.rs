//! The strategy family of the pipeline: lowering events to a level,
//! processing them at a level, and describing the watching backends.

pub mod conversion;
pub mod processor;
pub mod watcher;
