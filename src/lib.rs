//! Frame protocol of a window surface drawn on the GPU through OpenGL.
//!
//! The library decides, the caller performs: a frame is a sequence of steps
//! (make the context current, flush resizes, rebuild the render target when
//! the drawable size changed, draw, present, release the context) handed out
//! one at a time by [`surface::OpenGLSurface`]. The values that describe the
//! render target are computed in [`framebuffer`], and [`value`] holds the
//! property types exposed to JavaScript.

pub mod context;
pub mod error;
pub mod framebuffer;
pub mod surface;
pub mod value;
