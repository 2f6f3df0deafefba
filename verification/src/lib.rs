//! A manifest-driven fleet-of-repositories synchronizer: a typed model of
//! the manifest document, the merge algebra for local overlays (guarded
//! removals, attribute extensions, additive and override merges), the
//! resolution of each project's remote URL and revision, the bounded worker
//! count and per-project command plans for the external version-control
//! backend, the keep-gated aggregation of per-project failures, the path
//! containment rules for copy and link directives, and the exact rendering
//! of package-build command lines.
//!
//! Everything here is decision logic over plain values; running commands and
//! touching the filesystem belong to the thin unverified rim around this
//! crate.

pub mod model;
pub mod strutil;
pub mod gbs;
pub mod merge;
pub mod sync;
pub mod gitcmd;
pub mod fileops;
pub mod xml;
pub mod loader;
