//! Building blocks of a small software rasterizer: an RGB color algebra, a
//! fixed-size pixel canvas with plain-text PPM serialization, homogeneous
//! 4x4 affine transforms (translation, rotation, scale, shear), and a
//! projectile flight simulation that draws onto the canvas.
//!
//! All quantities are fixed-point: an `i64` value `v` stands for the real
//! number `v / ONE` (see the `fixed` module).

pub mod canvas;
pub mod color;
pub mod fixed;
pub mod projectile;
pub mod text;
pub mod transform;
pub mod tuple;

pub use canvas::Canvas;
pub use color::Color;
