//! Decision logic for creating one filesystem entry from a path: whether the
//! path names a file or a directory, whether creation is permitted, whether
//! the file is to be marked executable, and the order of the steps that carry
//! the decision out.

pub mod decision;
pub mod error;
pub mod executor;
pub mod extensions;
pub mod laws;
pub mod path;
pub mod plan;
pub mod target;
