//! The command-line options that drive a run, as plain data.
//!
//! Parsing the actual command line happens outside the library; the selection
//! logic in [`crate::file_detector`] and the dispatcher in [`crate::compiler`]
//! only read this record.

use vstd::prelude::*;

verus! {

/// Options for one run: which project to scan, which languages to build,
/// how many jobs may run at once, and the optional custom compiler flags.
#[derive(Debug, Clone)]
pub struct Args {
    /// Project directory to compile.
    pub project_path: String,
    /// Build C files.
    pub c: bool,
    /// Build C++ files.
    pub cpp: bool,
    /// Check Python files.
    pub python: bool,
    /// Build Java files.
    pub java: bool,
    /// Build Rust files.
    pub rust: bool,
    /// Build Go files.
    pub go: bool,
    /// Check JavaScript files.
    pub js: bool,
    /// Check TypeScript files.
    pub ts: bool,
    /// Build every detected language.
    pub all: bool,
    /// Show verbose output.
    pub verbose: bool,
    /// Number of parallel build jobs.
    pub jobs: usize,
    /// Custom compiler flags for C.
    pub cflags: Option<String>,
    /// Custom compiler flags for C++.
    pub cxxflags: Option<String>,
    /// Package name: bundle sources instead of compiling.
    pub name: Option<String>,
}

} // verus!
