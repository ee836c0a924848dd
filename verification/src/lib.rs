//! Download classification and dispatch pipeline.
//!
//! Receives a completed file download, determines its true binary type from
//! its leading bytes, repairs a mismatched file extension, classifies the
//! file into a coarse category, and decides — via a remembered preference or
//! an interactive prompt — which external application should handle it.

pub mod category;
pub mod config;
pub mod engine;
pub mod handlers;
pub mod paths;
pub mod registry;
pub mod sniff;
