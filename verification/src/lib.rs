//! Incremental static photo-gallery builder.
//!
//! The library holds the decision logic of the build pipeline: staleness-aware
//! discovery of conversion work across two mirrored directory trees, the
//! codec stage that turns one source image into a thumbnail and a main
//! rendition, static-asset mirroring under the same staleness rule, and the
//! assembly of per-directory album view models for a page renderer.
//!
//! Filesystem walking, file reads and writes, configuration parsing and the
//! page renderer live outside: callers hand the library plain values (path
//! components, modification times, directory listings, file bytes) and carry
//! out the work it plans.

pub mod album;
pub mod assets;
pub mod config;
pub mod errors;
pub mod scan;
pub mod transcode;
pub mod paths;
