use vstd::prelude::*;

use crate::gpu::{BindGroupEntry, BindingResource};

verus! {

/// The GPU objects of one light type that the lighting stage reads: its
/// uniform array, its shadow-map array and its per-light info array.
#[derive(Debug, Clone, Copy, PartialEq, Eq, Structural)]
pub struct LightArrayBindings {
    pub uniform_buffer: u64,
    pub shadow_maps: u64,
    pub infos_buffer: u64,
}

impl LightArrayBindings {
    pub open spec fn uniform_entry(self, binding: u32) -> BindGroupEntry {
        BindGroupEntry { binding, resource: BindingResource::Buffer(self.uniform_buffer) }
    }

    pub open spec fn shadow_map_entry(self, binding: u32) -> BindGroupEntry {
        BindGroupEntry { binding, resource: BindingResource::TextureView(self.shadow_maps) }
    }

    pub open spec fn infos_entry(self, binding: u32) -> BindGroupEntry {
        BindGroupEntry { binding, resource: BindingResource::Buffer(self.infos_buffer) }
    }

    /// A binding-set slot for the uniform array.
    pub fn uniform_binding(&self, binding: u32) -> (r: BindGroupEntry)
        ensures
            r == self.uniform_entry(binding),
    {
        BindGroupEntry { binding, resource: BindingResource::Buffer(self.uniform_buffer) }
    }

    /// A binding-set slot for the shadow-map array.
    pub fn shadow_map_binding(&self, binding: u32) -> (r: BindGroupEntry)
        ensures
            r == self.shadow_map_entry(binding),
    {
        BindGroupEntry { binding, resource: BindingResource::TextureView(self.shadow_maps) }
    }

    /// A binding-set slot for the info array.
    pub fn infos_binding(&self, binding: u32) -> (r: BindGroupEntry)
        ensures
            r == self.infos_entry(binding),
    {
        BindGroupEntry { binding, resource: BindingResource::Buffer(self.infos_buffer) }
    }
}

/// The light data of a frame, owned outside the pipeline and read-only to it.
#[derive(Debug, Clone, Copy, PartialEq, Eq, Structural)]
pub struct WgpuLights {
    pub area_lights: LightArrayBindings,
    pub spot_lights: LightArrayBindings,
    pub directional_lights: LightArrayBindings,
}

} // verus!
