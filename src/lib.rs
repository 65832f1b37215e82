//! The deferred-shading frame pipeline of a real-time renderer.
//!
//! GPU objects are described as plain values: each texture, buffer, sampler,
//! layout, binding set and pipeline carries an identity handed out by a
//! [`gpu::Device`], and each pass records what it does into a
//! [`gpu::CommandEncoder`]. A host executes those descriptions on a real
//! graphics device.
//!
//! [`output::WgpuOutput`] owns the frame's buffers; [`radiance::RadiancePass`]
//! lights them, [`ssao::SsaoPass`] estimates and blurs ambient occlusion,
//! [`pass::BlitPass`] composites, and [`pass::QuadPass`] and
//! [`output::WgpuOutput::blit_debug`] show a buffer on a display target.
pub mod gpu;
pub mod lights;
pub mod loader;
pub mod output;
pub mod pass;
pub mod radiance;
pub mod ssao;
pub mod view;

pub use loader::{LoadResult, ObjLoader};
pub use output::WgpuOutput;
pub use pass::{BlitPass, QuadPass};
pub use radiance::RadiancePass;
pub use ssao::SsaoPass;
pub use view::WgpuView;
