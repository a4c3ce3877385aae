//! The data model: vertices, the lines that join two distinct vertices, and
//! the paths made of consecutively connected lines.

pub mod line;
pub mod path;
pub mod vertex;
