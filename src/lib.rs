//! Import pipeline for beatmap archives: stability detection, metadata
//! parsing, deduplication cache, per-entry guards and safe extraction.

pub mod archive;
pub mod cache;
pub mod download;
pub mod errors;
pub mod guards;
pub mod importer;
pub mod model;
pub mod osu;
pub mod paths;
pub mod pipeline;
pub mod playback;
pub mod preview;
pub mod search;
pub mod stability;
pub mod text;
pub mod view;
