//! The decisions of a desktop application's startup shell, apart from the
//! input and output that carry them out.
//!
//! The shell installs a crash handler, runs a windowed host with two
//! capabilities attached, and reports a failed run. Each of these is decided
//! here and stated as a contract; a thin caller performs what was decided.

pub mod host;
pub mod log;
pub mod recorder;
pub mod report;
pub mod surroundings;
pub mod text;
