//! Verified core of a network-measurement collector.
//!
//! The library validates raw configuration into typed per-service
//! configurations, parses the textual output of the platform ping command
//! into numeric measurements, flattens speedtest results into named fields
//! and tags, and assembles the time-series points that the surrounding
//! runtime writes to its sink.

pub mod config;
pub mod errors;
pub mod num;
pub mod pattern;
pub mod ping;
pub mod point;
pub mod speedtest;
pub mod text;
