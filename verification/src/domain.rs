//! The validated value types of a clip.

pub mod clip;
pub mod maintenance;
pub mod time;

pub use clip::Clip;
