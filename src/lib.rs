//! Recursive enumeration of the `.json` files below a directory.

pub mod config;
pub mod candidate;
pub mod walker;

pub use config::Config;
pub use candidate::Candidate;
pub use walker::{walk_json_files, WalkJsonFiles};
