//! Planning and read-back logic for rendering a WGSL fragment shader into an
//! RGBA image: output size selection, the GPU resources a render needs, the
//! uniform parameters handed to the shader, and the removal of the row padding
//! that texture-to-buffer copies introduce.

pub mod cli;
pub mod error;
pub mod raster;
pub mod renderer;

pub use error::TiedyeError;
