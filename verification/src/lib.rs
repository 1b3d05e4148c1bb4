//! A software 3D rendering pipeline over fixed-point arithmetic: an
//! orbital and free-fly camera producing view matrices, a vertex
//! transformation stage, procedural material shaders, a triangle
//! rasterizer with an exact barycentric interior test, and a depth-tested
//! framebuffer. Every scalar carries three decimal places in an `i64`,
//! and every stage returns exactly the value of its specification mirror.

pub mod camera;
pub mod color;
pub mod fixed;
pub mod fragment;
pub mod framebuffer;
pub mod input;
pub mod line;
pub mod mat;
pub mod render;
pub mod scene;
pub mod shaders;
pub mod skybox;
pub mod triangle;
pub mod uniforms;
pub mod vec;
pub mod vertex;
