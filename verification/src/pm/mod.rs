//! What each package manager is told to do for each operation.

pub mod conda;
pub mod job;

pub use conda::Conda;
pub use job::{Config, Handling, Job};
