//! Small utilities.

pub mod utils;
