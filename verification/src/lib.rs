//! A static-asset build pipeline: declarative path rules select source
//! files, a per-format loader transforms each one, the result is
//! content-addressed and named, and a manifest maps every original source
//! path to its realized output paths.
//!
//! The pipeline proper lives in `config`, `globs`, `loader`, `hashing`,
//! `builder`, `manifest` and `sync`; the remaining modules carry the data
//! the site layer reads out of the manifest and its feeds.

pub mod apis;
pub mod assets;
pub mod blog;
pub mod builder;
pub mod config;
pub mod error;
pub mod globs;
pub mod hashing;
pub mod loader;
pub mod manifest;
pub mod markdown;
pub mod paths;
pub mod projects;
pub mod sync;
pub mod templates;
