//! A retained-mode 2D canvas frame: it records filled and stroked paths,
//! rectangles and text under a stack of affine transforms, composes clipped
//! regions, and exports a tree of drawing primitives.
pub mod geometry;
pub mod transform;
pub mod path;
pub mod style;
pub mod primitive;
pub mod frame;
