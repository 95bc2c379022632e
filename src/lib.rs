//! Build settings of a project: where sources are watched, where build output
//! lands, and the optional custom build command.
//!
//! Validation works on a snapshot of what the filesystem reported about the
//! configured paths, and the build command is described as plain data, so
//! that both are pure functions of their inputs.

mod builder;
mod command;
mod paths;
mod words;

pub use paths::{join_relative, upload_dir, watch_dir, UPLOAD_DIR, WATCH_DIR};
pub use words::{split_marked, split_white_space};
pub use builder::{Builder, BuilderRecord, ConfigError, FsSnapshot, ScriptFormat};
pub use command::{Platform, ProcessDescriptor};
