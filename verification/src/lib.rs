//! Library for an LLM-assisted commit tool: configuration resolution,
//! named provider presets, prompt construction, semantic-version helpers,
//! and the commit-history rewrite engine that rewords a single commit.
//!
//! All repository mutation and I/O is performed by the thin binary layer;
//! this crate holds the decision procedures and data transformations, with
//! their behaviour stated in contracts.

pub mod cache;
pub mod config;
pub mod git;
pub mod interpolation;
pub mod preset;
pub mod prompt;
pub mod provider;
pub mod rewrite;
pub mod strutil;
pub mod ui;
pub mod update;
