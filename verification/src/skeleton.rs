//! The humanoid bone hierarchy and the rules that pose it.

pub mod bone;
pub mod skeleton_config;
pub mod skeleton_manager;
