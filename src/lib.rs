//! Filesystem entries for a directory lister: path parsing, a cached metadata
//! snapshot, derived classifications and symlink resolution.

pub mod fields;
pub mod file;
pub mod path;
