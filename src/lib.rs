//! Decisions behind taking a screenshot through the desktop portal: where it
//! is saved, how the captured file is moved there, and what the user is told.

pub mod error;
pub mod outcome;
pub mod relocate;
pub mod save_dir;
pub mod stamp;
