//! A multi-language build orchestrator: a registry that maps file extensions
//! to languages, a classifier that groups a project's source files by
//! language, configuration with glob-like include/ignore patterns, and the
//! bookkeeping of a concurrency-bounded per-file build dispatcher.
//!
//! Everything that decides or computes lives here and is verified; walking
//! directories, spawning compilers and drawing progress bars is left to the
//! surrounding binary.

pub mod args;
pub mod compiler;
pub mod config;
pub mod file_detector;
pub mod language_support;
pub mod paths;
pub mod text;
