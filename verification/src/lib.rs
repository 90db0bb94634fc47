//! Decode, classify and encode aviation weather reports (METAR/TAF) for a
//! fixed-width color-coded display board.
//!
//! The pipeline is stateless: a raw report payload plus an injected clock
//! value is turned into one display string per invocation.

pub mod api;
pub mod classify;
pub mod config;
pub mod encode;
pub mod format;
pub mod parse;
pub mod report;
pub mod pipeline;
pub mod text;
