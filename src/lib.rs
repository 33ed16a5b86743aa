//! Client-side synchronization engine for game files: path filtering,
//! content digests, a modification-time cache, manifest diffing and a
//! sequential, verified download pipeline; with the launcher's configuration,
//! session and launch state around it.

pub mod auth;
pub mod cache;
pub mod config;
pub mod diff;
pub mod digest;
pub mod download;
pub mod game;
pub mod ignore;
pub mod manifest;
pub mod text;
