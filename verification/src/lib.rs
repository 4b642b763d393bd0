//! Strange-attractor animation core: particle trails integrated through a
//! chaotic vector field, rotated as a rigid scene, and projected onto an
//! equirectangular celestial sphere as drawable line segments.
//!
//! All geometry is carried in fixed-point micro-units (one unit of world
//! space is `SCALE` micro-units), so every computation is exact integer
//! arithmetic with stated rounding, and every function carries a contract.

pub mod fixed;
pub mod geom;
pub mod model;
pub mod particle;
pub mod project;
pub mod render;
pub mod scene;
pub mod trig;
