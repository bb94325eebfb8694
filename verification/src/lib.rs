//! A read-only catalog of tenant directories and their timestamp-named run folders.
//!
//! The crate holds the decisions of the catalog: which directory children count as
//! tenants or run folders, how a run-folder name becomes an orderable timestamp, and
//! which run folder is the most recent one. Reading the file system is left to the
//! caller, who hands over what it observed as a [`enumerate::Scan`].

pub mod catalog;
pub mod config;
pub mod enumerate;
pub mod parser;
pub mod timestamp;
