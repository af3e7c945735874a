//! Selective extraction of tabular data files (`.csv`, `.txt`, `.tsv`) from a
//! zip container.
//!
//! The library parses a container held in memory, filters its entries by a
//! case-insensitive suffix whitelist, and builds an extraction plan: for each
//! kept entry, the original in-archive name, the destination path beneath a
//! freshly provisioned scratch root, and the entry's decompressed bytes.
//! Writing the planned files to disk is left to the caller.

pub mod container;
pub mod errors;
pub mod extract;
pub mod filter;
pub mod laws;
pub mod paths;
pub mod plan;
