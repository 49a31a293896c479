mod triangle;

pub use triangle::{TrianglePrimitive, TRIANGLE_INDEX_COUNT};
