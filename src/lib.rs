//! The integer core of a raycaster for a maze in the hyperbolic plane: wall
//! colors and their lighting, the choice of the nearest hit of a ray, the
//! painting of a screen column, and a map of tiles joined to their neighbors.
//! Distances reach this crate as fixed-point numbers (see `render::UNIT`).

pub mod color;
pub mod map;
pub mod render;
pub mod walls;
