//! Watches a cargo package that builds a dynamic library, rebuilds it when its
//! sources change, and loads each build from a private, uniquely named copy so
//! that a running instance is never disturbed by the next build.
//!
//! The library holds the decisions: where artifacts and private copies live,
//! which metadata target is the one to build, which file-system events warrant a
//! rebuild, and in which order a loaded copy is torn down. The process, file and
//! notification work is driven around it.

pub mod platform;
pub mod timestamp;
pub mod metadata;
pub mod paths;
pub mod errors;
pub mod package;
pub mod events;
pub mod lifecycle;
pub mod laws;
