//! Export of a key-value store table's primary keys to an append-only CSV file.
//!
//! The library holds the decisions of the export: which settings are required,
//! which scan request is issued, how the pages of a scan are collected, which
//! items contribute a line and which bytes are appended to the output file.
//! Reading the environment, talking to the store and touching the disk are left
//! to the caller.

pub mod config;
pub mod item;
pub mod export;
pub mod scan;
