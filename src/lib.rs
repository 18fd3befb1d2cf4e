//! Renders a captured snapshot of process metadata (buttons, interfaces,
//! offsets and schema classes) as C#, C++, JSON and Rust text.

pub mod names;
pub mod text;
pub mod model;
pub mod render;
pub mod snapshot;
pub mod time;
