//! The decisions of a small real-time loop: how input events move a sprite,
//! when the loop ends, which colour a frame is cleared with and where on the
//! surface the sprite is drawn. Windowing, drawing and sleeping are left to
//! the program that drives the loop.

pub mod geometry;
pub mod transform;
pub mod color;
pub mod input;
pub mod actor;
pub mod frame;
