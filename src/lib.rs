//! A toroidal Game of Life engine with origin tagging, and the pixel-level
//! pipeline that renders it: a bounds-checked canvas, line rasterization,
//! grid rendering and a dot-matrix text overlay.

pub mod color;
pub mod framebuffer;
pub mod life;
pub mod patterns;
pub mod line;
pub mod text;
pub mod render;
pub mod ui;
pub mod control;
