//! A CPU-rasterized window renderer: a suspend/resume lifecycle around a
//! presentation surface, and a frame pipeline that rasterizes a scene and
//! converts its premultiplied pixels into the surface's packed format.

pub mod error;
pub mod outside;
pub mod pixel;
pub mod timing;
pub mod window_renderer;

pub use error::RenderError;
pub use window_renderer::{
    ActiveRenderState, RenderState, VelloCpuAnyrenderScene, VelloCpuWindowRenderer,
};
