//! Layout, timing and scrolling decisions behind each drawn frame.

pub mod cursor;
pub mod text;
pub mod scroll;
