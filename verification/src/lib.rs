//! Foundational 2D geometry primitives and a dense 2D grid container.
//!
//! The crate offers a two-component vector type with exact integer
//! arithmetic, an axis-aligned rectangle with overlap geometry, a
//! fixed-size row-major grid, and a wrapping (toroidal) view of the
//! grid that accepts arbitrary signed coordinates.

pub mod grid;
pub mod rect;
pub mod vector;
pub mod vectors;
pub mod wrapping_grid;

pub use crate::grid::Grid;
pub use crate::rect::Rect;
pub use crate::vector::Vec2;
pub use crate::wrapping_grid::WrappingGrid;
