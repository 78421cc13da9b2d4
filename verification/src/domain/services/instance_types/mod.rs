//! Keeping the catalog of instance types and serving it.

pub mod cron_service;
pub mod deserializer;
pub mod errors;
pub mod reader_service;
pub mod updater;

pub use errors::UpdaterError;
