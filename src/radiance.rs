use vstd::prelude::*;

use crate::gpu::{
    BindGroup, BindGroupEntry, BindGroupLayout, BindGroupLayoutEntry, BindingResource,
    BindingType, Buffer, Command, CommandEncoder, ComputePipeline, Device, Sampler, SamplerKind,
    Shader, ShaderStage, TextureFormat, IDS_PER_CALL,
};
use crate::lights::WgpuLights;
use crate::output::WgpuOutput;
use crate::pass::{ceil_div, tile_count};
use crate::ssao::SsaoPass;
use crate::view::WgpuView;

verus! {

/// A compute-stage slot of the given binding and type.
pub open spec fn compute_entry(binding: u32, ty: BindingType) -> BindGroupLayoutEntry {
    BindGroupLayoutEntry { binding, visibility: ShaderStage::Compute, ty }
}

/// Slots of binding set 0: the camera uniform (at least `camera_size`
/// bytes), the material storage buffer and the radiance buffer as a
/// writable storage image.
pub open spec fn uniform_layout_entries(camera_size: u64) -> Seq<BindGroupLayoutEntry> {
    seq![
        compute_entry(0, BindingType::UniformBuffer { min_binding_size: camera_size }),
        compute_entry(1, BindingType::StorageBuffer { read_only: true }),
        compute_entry(
            2,
            BindingType::StorageTexture { format: TextureFormat::Rgba16Float, read_only: false },
        ),
    ]
}

/// Slots of binding set 1: albedo, normal, world position and material
/// parameters as read-only storage images.
pub open spec fn gbuffer_layout_entries() -> Seq<BindGroupLayoutEntry> {
    let ty = BindingType::StorageTexture { format: TextureFormat::Rgba16Float, read_only: true };
    seq![compute_entry(0, ty), compute_entry(1, ty), compute_entry(2, ty), compute_entry(3, ty)]
}

/// Slots of binding set 2: per light type (area, spot, directional) a
/// uniform array at 1..=3, a shadow-map array at 6..=8 and an info array at
/// 10..=12, with the shadow sampler at 4.
pub open spec fn lights_layout_entries() -> Seq<BindGroupLayoutEntry> {
    let uniform = BindingType::UniformBuffer { min_binding_size: 0 };
    let maps = BindingType::Texture { filterable: true, array: true };
    seq![
        compute_entry(1, uniform),
        compute_entry(2, uniform),
        compute_entry(3, uniform),
        compute_entry(4, BindingType::Sampler { filtering: true }),
        compute_entry(6, maps),
        compute_entry(7, maps),
        compute_entry(8, maps),
        compute_entry(10, uniform),
        compute_entry(11, uniform),
        compute_entry(12, uniform),
    ]
}

/// The light binding set's slots for `lights`, read with `shadow_sampler`.
pub open spec fn lights_entries(lights: WgpuLights, shadow_sampler: u64) -> Seq<BindGroupEntry> {
    seq![
        lights.area_lights.uniform_entry(1),
        lights.spot_lights.uniform_entry(2),
        lights.directional_lights.uniform_entry(3),
        BindGroupEntry { binding: 4, resource: BindingResource::Sampler(shadow_sampler) },
        lights.area_lights.shadow_map_entry(6),
        lights.spot_lights.shadow_map_entry(7),
        lights.directional_lights.shadow_map_entry(8),
        lights.area_lights.infos_entry(10),
        lights.spot_lights.infos_entry(11),
        lights.directional_lights.infos_entry(12),
    ]
}

/// Slots of binding set 0: the camera and material buffers, and the
/// radiance buffer of `output`.
pub open spec fn uniform_entries(
    output: WgpuOutput,
    camera_buffer: Buffer,
    material_buffer: Buffer,
) -> Seq<BindGroupEntry> {
    seq![
        BindGroupEntry { binding: 0, resource: BindingResource::Buffer(camera_buffer.id) },
        BindGroupEntry { binding: 1, resource: BindingResource::Buffer(material_buffer.id) },
        output.view_entry(2, WgpuView::Radiance),
    ]
}

/// Slots of binding set 1: the albedo, normal, world-position and
/// material-parameter buffers of `output`.
pub open spec fn gbuffer_entries(output: WgpuOutput) -> Seq<BindGroupEntry> {
    seq![
        output.view_entry(0, WgpuView::Albedo),
        output.view_entry(1, WgpuView::Normal),
        output.view_entry(2, WgpuView::GBuffer),
        output.view_entry(3, WgpuView::MatParams),
    ]
}

/// The lighting stage: reads the geometry buffers and the light data and
/// writes the radiance buffer.
#[derive(Debug)]
pub struct RadiancePass {
    pub pipeline: ComputePipeline,
    pub shadow_sampler: Sampler,
    pub bind_group_layout: BindGroupLayout,
    pub bind_group: BindGroup,
    pub lights_bind_group_layout: BindGroupLayout,
    pub lights_bind_group: BindGroup,
    pub uniform_bind_group_layout: BindGroupLayout,
    pub uniform_bind_group: BindGroup,
}

impl RadiancePass {
    /// The minimum camera uniform size that binding set 0 was laid out with.
    pub open spec fn camera_binding_size(self) -> u64 {
        match self.uniform_bind_group_layout.entries@[0].ty {
            BindingType::UniformBuffer { min_binding_size } => min_binding_size,
            _ => 0,
        }
    }

    /// Layouts, sampler and pipeline are in place; the pipeline uses the
    /// layouts of binding sets 0, 1 and 2 in that order.
    pub open spec fn wf(self) -> bool {
        &&& self.uniform_bind_group_layout.entries@ == uniform_layout_entries(
            self.camera_binding_size(),
        )
        &&& self.bind_group_layout.entries@ == gbuffer_layout_entries()
        &&& self.lights_bind_group_layout.entries@ == lights_layout_entries()
        &&& self.shadow_sampler.kind == SamplerKind::Shadow
        &&& self.pipeline.layouts@ == seq![
            self.uniform_bind_group_layout.id,
            self.bind_group_layout.id,
            self.lights_bind_group_layout.id,
        ]
        &&& self.pipeline.shader == Shader::Lighting
    }

    /// The three binding sets refer to the given camera and material
    /// buffers, the current buffers of `output` and the given light data.
    pub open spec fn bound_to(
        self,
        output: WgpuOutput,
        lights: WgpuLights,
        camera_buffer: Buffer,
        material_buffer: Buffer,
    ) -> bool {
        &&& self.uniform_bind_group.layout == self.uniform_bind_group_layout.id
        &&& self.uniform_bind_group.entries@ == uniform_entries(
            output,
            camera_buffer,
            material_buffer,
        )
        &&& self.bind_group.layout == self.bind_group_layout.id
        &&& self.bind_group.entries@ == gbuffer_entries(output)
        &&& self.lights_bind_group.layout == self.lights_bind_group_layout.id
        &&& self.lights_bind_group.entries@ == lights_entries(lights, self.shadow_sampler.id)
    }

    /// `self` keeps the layouts, sampler and pipeline of `other`.
    pub open spec fn same_objects(self, other: RadiancePass) -> bool {
        &&& self.pipeline.id == other.pipeline.id
        &&& self.shadow_sampler == other.shadow_sampler
        &&& self.bind_group_layout.id == other.bind_group_layout.id
        &&& self.lights_bind_group_layout.id == other.lights_bind_group_layout.id
        &&& self.uniform_bind_group_layout.id == other.uniform_bind_group_layout.id
    }

    /// The identities of the three binding sets lie in `[lo, hi)`.
    pub open spec fn groups_within(self, lo: nat, hi: nat) -> bool {
        &&& lo <= self.uniform_bind_group.id < hi
        &&& lo <= self.bind_group.id < hi
        &&& lo <= self.lights_bind_group.id < hi
    }

    /// The three binding sets for the given objects, with consecutive
    /// identities.
    fn create_bind_groups(
        device: &mut Device,
        layouts: (u64, u64, u64),
        shadow_sampler: u64,
        output: &WgpuOutput,
        lights: &WgpuLights,
        camera_buffer: &Buffer,
        material_buffer: &Buffer,
    ) -> (r: (BindGroup, BindGroup, BindGroup))
        requires
            old(device).can_allocate(3),
        ensures
            final(device).next() == old(device).next() + 3,
            r.0.id == old(device).next(),
            r.1.id == old(device).next() + 1,
            r.2.id == old(device).next() + 2,
            r.0.layout == layouts.0,
            r.0.entries@ == uniform_entries(*output, *camera_buffer, *material_buffer),
            r.1.layout == layouts.1,
            r.1.entries@ == gbuffer_entries(*output),
            r.2.layout == layouts.2,
            r.2.entries@ == lights_entries(*lights, shadow_sampler),
    {
        let uniform_id = device.allocate();
        let uniform_bind_group = BindGroup {
            id: uniform_id,
            layout: layouts.0,
            entries: vec![
                BindGroupEntry { binding: 0, resource: BindingResource::Buffer(camera_buffer.id) },
                BindGroupEntry { binding: 1, resource: BindingResource::Buffer(material_buffer.id) },
                output.as_binding(2, WgpuView::Radiance),
            ],
        };
        let gbuffer_id = device.allocate();
        let bind_group = BindGroup {
            id: gbuffer_id,
            layout: layouts.1,
            entries: vec![
                output.as_binding(0, WgpuView::Albedo),
                output.as_binding(1, WgpuView::Normal),
                output.as_binding(2, WgpuView::GBuffer),
                output.as_binding(3, WgpuView::MatParams),
            ],
        };
        let lights_id = device.allocate();
        let lights_bind_group = BindGroup {
            id: lights_id,
            layout: layouts.2,
            entries: Self::light_slots(lights, shadow_sampler),
        };
        (uniform_bind_group, bind_group, lights_bind_group)
    }

    fn light_slots(lights: &WgpuLights, shadow_sampler: u64) -> (r: Vec<BindGroupEntry>)
        ensures
            r@ == lights_entries(*lights, shadow_sampler),
    {
        let r = vec![
            lights.area_lights.uniform_binding(1),
            lights.spot_lights.uniform_binding(2),
            lights.directional_lights.uniform_binding(3),
            BindGroupEntry { binding: 4, resource: BindingResource::Sampler(shadow_sampler) },
            lights.area_lights.shadow_map_binding(6),
            lights.spot_lights.shadow_map_binding(7),
            lights.directional_lights.shadow_map_binding(8),
            lights.area_lights.infos_binding(10),
            lights.spot_lights.infos_binding(11),
            lights.directional_lights.infos_binding(12),
        ];
        assert(r@ =~= lights_entries(*lights, shadow_sampler));
        r
    }

    fn uniform_layout(device: &mut Device, output: &WgpuOutput, camera_size: u64) -> (r:
        BindGroupLayout)
        requires
            old(device).can_allocate(1),
        ensures
            final(device).next() == old(device).next() + 1,
            r.entries@ == uniform_layout_entries(camera_size),
    {
        let id = device.allocate();
        let r = BindGroupLayout {
            id,
            entries: vec![
                BindGroupLayoutEntry {
                    binding: 0,
                    visibility: ShaderStage::Compute,
                    ty: BindingType::UniformBuffer { min_binding_size: camera_size },
                },
                BindGroupLayoutEntry {
                    binding: 1,
                    visibility: ShaderStage::Compute,
                    ty: BindingType::StorageBuffer { read_only: true },
                },
                output.as_storage_entry(2, ShaderStage::Compute, WgpuView::Radiance, false),
            ],
        };
        assert(r.entries@ =~= uniform_layout_entries(camera_size));
        r
    }

    fn gbuffer_layout(device: &mut Device, output: &WgpuOutput) -> (r: BindGroupLayout)
        requires
            old(device).can_allocate(1),
        ensures
            final(device).next() == old(device).next() + 1,
            r.entries@ == gbuffer_layout_entries(),
    {
        let id = device.allocate();
        let r = BindGroupLayout {
            id,
            entries: vec![
                output.as_storage_entry(0, ShaderStage::Compute, WgpuView::Albedo, true),
                output.as_storage_entry(1, ShaderStage::Compute, WgpuView::Normal, true),
                output.as_storage_entry(2, ShaderStage::Compute, WgpuView::GBuffer, true),
                output.as_storage_entry(3, ShaderStage::Compute, WgpuView::MatParams, true),
            ],
        };
        assert(r.entries@ =~= gbuffer_layout_entries());
        r
    }

    fn lights_layout(device: &mut Device) -> (r: BindGroupLayout)
        requires
            old(device).can_allocate(1),
        ensures
            final(device).next() == old(device).next() + 1,
            r.entries@ == lights_layout_entries(),
    {
        let id = device.allocate();
        let uniform = BindingType::UniformBuffer { min_binding_size: 0 };
        let maps = BindingType::Texture { filterable: true, array: true };
        let c = ShaderStage::Compute;
        let r = BindGroupLayout {
            id,
            entries: vec![
                BindGroupLayoutEntry { binding: 1, visibility: c, ty: uniform },
                BindGroupLayoutEntry { binding: 2, visibility: c, ty: uniform },
                BindGroupLayoutEntry { binding: 3, visibility: c, ty: uniform },
                BindGroupLayoutEntry {
                    binding: 4,
                    visibility: c,
                    ty: BindingType::Sampler { filtering: true },
                },
                BindGroupLayoutEntry { binding: 6, visibility: c, ty: maps },
                BindGroupLayoutEntry { binding: 7, visibility: c, ty: maps },
                BindGroupLayoutEntry { binding: 8, visibility: c, ty: maps },
                BindGroupLayoutEntry { binding: 10, visibility: c, ty: uniform },
                BindGroupLayoutEntry { binding: 11, visibility: c, ty: uniform },
                BindGroupLayoutEntry { binding: 12, visibility: c, ty: uniform },
            ],
        };
        assert(r.entries@ =~= lights_layout_entries());
        r
    }

    /// Builds the lighting pipeline from three binding-set layouts (camera,
    /// material and radiance output; geometry buffers; light data) and binding
    /// sets for the given buffers. Binding set 0 asks for the whole camera
    /// buffer.
    pub fn new(
        device: &mut Device,
        camera_buffer: &Buffer,
        material_buffer: &Buffer,
        output: &WgpuOutput,
        lights: &WgpuLights,
    ) -> (r: Self)
        requires
            old(device).can_allocate(IDS_PER_CALL as nat),
        ensures
            r.wf(),
            r.bound_to(*output, *lights, *camera_buffer, *material_buffer),
            r.camera_binding_size() == camera_buffer.size,
            r.groups_within(old(device).next(), final(device).next()),
            old(device).next() <= final(device).next() <= old(device).next() + IDS_PER_CALL,
    {
        let uniform_bind_group_layout = Self::uniform_layout(device, output, camera_buffer.size);
        let bind_group_layout = Self::gbuffer_layout(device, output);
        let lights_bind_group_layout = Self::lights_layout(device);
        let sampler_id = device.allocate();
        let shadow_sampler = Sampler { id: sampler_id, kind: SamplerKind::Shadow };
        let pipeline_id = device.allocate();
        let pipeline = ComputePipeline {
            id: pipeline_id,
            layouts: vec![
                uniform_bind_group_layout.id,
                bind_group_layout.id,
                lights_bind_group_layout.id,
            ],
            shader: Shader::Lighting,
        };
        let (uniform_bind_group, bind_group, lights_bind_group) = Self::create_bind_groups(
            device,
            (uniform_bind_group_layout.id, bind_group_layout.id, lights_bind_group_layout.id),
            sampler_id,
            output,
            lights,
            camera_buffer,
            material_buffer,
        );
        RadiancePass {
            pipeline,
            shadow_sampler,
            bind_group_layout,
            bind_group,
            lights_bind_group_layout,
            lights_bind_group,
            uniform_bind_group_layout,
            uniform_bind_group,
        }
    }

    /// Rebuilds all three binding sets against the given buffers; needed
    /// after every resize of `output` and every reallocation of the light
    /// data, before the next launch.
    pub fn update_bind_groups(
        &mut self,
        device: &mut Device,
        output: &WgpuOutput,
        lights: &WgpuLights,
        camera_buffer: &Buffer,
        material_buffer: &Buffer,
    )
        requires
            old(self).wf(),
            old(device).can_allocate(3),
        ensures
            final(self).wf(),
            final(self).bound_to(*output, *lights, *camera_buffer, *material_buffer),
            final(self).same_objects(*old(self)),
            final(self).groups_within(old(device).next(), final(device).next()),
            final(device).next() == old(device).next() + 3,
    {
        let (g0, g1, g2) = Self::create_bind_groups(
            device,
            (self.uniform_bind_group_layout.id, self.bind_group_layout.id, self.lights_bind_group_layout.id),
            self.shadow_sampler.id,
            output,
            lights,
            camera_buffer,
            material_buffer,
        );
        self.uniform_bind_group = g0;
        self.bind_group = g1;
        self.lights_bind_group = g2;
    }

    /// Whether the three binding sets refer to the given buffers, the
    /// current buffers of `output` and the given light data.
    pub fn is_bound_to(
        &self,
        output: &WgpuOutput,
        lights: &WgpuLights,
        camera_buffer: &Buffer,
        material_buffer: &Buffer,
    ) -> (r: bool)
        ensures
            r == self.bound_to(*output, *lights, *camera_buffer, *material_buffer),
    {
        let u = &self.uniform_bind_group.entries;
        let camera = BindGroupEntry {
            binding: 0,
            resource: BindingResource::Buffer(camera_buffer.id),
        };
        let material = BindGroupEntry {
            binding: 1,
            resource: BindingResource::Buffer(material_buffer.id),
        };
        let radiance = output.as_binding(2, WgpuView::Radiance);
        let uniform_ok = self.uniform_bind_group.layout == self.uniform_bind_group_layout.id
            && u.len() == 3 && u[0] == camera && u[1] == material && u[2] == radiance;
        let e = &self.bind_group.entries;
        let albedo = output.as_binding(0, WgpuView::Albedo);
        let normal = output.as_binding(1, WgpuView::Normal);
        let world = output.as_binding(2, WgpuView::GBuffer);
        let params = output.as_binding(3, WgpuView::MatParams);
        let gbuffer_ok = self.bind_group.layout == self.bind_group_layout.id && e.len() == 4
            && e[0] == albedo && e[1] == normal && e[2] == world && e[3] == params;
        let l = &self.lights_bind_group.entries;
        let expected = Self::light_slots(lights, self.shadow_sampler.id);
        let mut lights_ok = self.lights_bind_group.layout == self.lights_bind_group_layout.id
            && l.len() == expected.len();
        let mut i: usize = 0;
        while lights_ok && i < expected.len()
            invariant
                lights_ok ==> l@.len() == expected@.len(),
                lights_ok ==> self.lights_bind_group.layout == self.lights_bind_group_layout.id,
                lights_ok ==> forall|j: int| 0 <= j < i ==> l@[j] == expected@[j],
                !lights_ok ==> (self.lights_bind_group.layout != self.lights_bind_group_layout.id
                    || l@ != expected@),
                i <= expected@.len(),
                expected@ == lights_entries(*lights, self.shadow_sampler.id),
            decreases expected@.len() - i,
        {
            if l[i] != expected[i] {
                lights_ok = false;
            }
            i = i + 1;
        }
        proof {
            if uniform_ok {
                assert(u@ =~= seq![camera, material, radiance]);
            }
            if gbuffer_ok {
                assert(e@ =~= seq![albedo, normal, world, params]);
            }
            if lights_ok {
                assert(l@ =~= expected@);
            }
        }
        uniform_ok && gbuffer_ok && lights_ok
    }

    /// The dispatch that `launch` records.
    pub open spec fn launch_command(self, width: u32, height: u32) -> Command {
        Command::Dispatch {
            pipeline: self.pipeline.id,
            group0: self.uniform_bind_group.id,
            group1: Some(self.bind_group.id),
            group2: Some(self.lights_bind_group.id),
            x: ceil_div(width as int, 8) as u32,
            y: ceil_div(height as int, 8) as u32,
            z: 1,
        }
    }

    /// Records one compute pass with one invocation per pixel in 8×8 tiles:
    /// a `ceil(width / 8) × ceil(height / 8)` grid.
    ///
    /// The binding sets must be current for the given buffers and light
    /// data: after a resize of `output` or a reallocation of the light data,
    /// `update_bind_groups` has to run first.
    pub fn launch(
        &self,
        encoder: &mut CommandEncoder,
        width: u32,
        height: u32,
        output: &WgpuOutput,
        lights: &WgpuLights,
        camera_buffer: &Buffer,
        material_buffer: &Buffer,
    )
        requires
            self.bound_to(*output, *lights, *camera_buffer, *material_buffer),
        ensures
            final(encoder)@ == old(encoder)@.push(self.launch_command(width, height)),
    {
        let x = tile_count(width);
        let y = tile_count(height);
        encoder.record(
            Command::Dispatch {
                pipeline: self.pipeline.id,
                group0: self.uniform_bind_group.id,
                group1: Some(self.bind_group.id),
                group2: Some(self.lights_bind_group.id),
                x,
                y,
                z: 1,
            },
        );
    }

    /// After the buffer set is resized, binding sets built for the old
    /// buffers are stale: they do not refer to the new buffers until
    /// `update_bind_groups` runs.
    pub proof fn lemma_stale_after_resize(
        self,
        before: WgpuOutput,
        after: WgpuOutput,
        lights: WgpuLights,
        camera_buffer: Buffer,
        material_buffer: Buffer,
        width: u32,
        height: u32,
        lo: nat,
        hi: nat,
    )
        requires
            self.bound_to(before, lights, camera_buffer, material_buffer),
            WgpuOutput::resized(before, after, width, height, lo, hi),
        ensures
            !self.bound_to(after, lights, camera_buffer, material_buffer),
    {
        assert(before.texture_of(WgpuView::Albedo).id < lo);
        assert(lo <= after.texture_of(WgpuView::Albedo).id);
        if self.bound_to(after, lights, camera_buffer, material_buffer) {
            assert(self.bind_group.entries@[0] == before.view_entry(0, WgpuView::Albedo));
            assert(self.bind_group.entries@[0] == after.view_entry(0, WgpuView::Albedo));
        }
    }

    /// The lighting stage writes only the radiance buffer and never binds the
    /// output buffer: its one writable image slot holds the radiance buffer,
    /// its geometry slots are read-only, and no slot filled from `output`
    /// refers to the output buffer.
    pub proof fn lemma_writes_only_radiance(
        self,
        output: WgpuOutput,
        lights: WgpuLights,
        camera_buffer: Buffer,
        material_buffer: Buffer,
    )
        requires
            self.wf(),
            self.bound_to(output, lights, camera_buffer, material_buffer),
            output.wf(),
        ensures
            self.uniform_bind_group_layout.entries@[2].ty == (BindingType::StorageTexture {
                format: TextureFormat::Rgba16Float,
                read_only: false,
            }),
            self.uniform_bind_group.entries@[2] == output.view_entry(2, WgpuView::Radiance),
            forall|i: int|
                0 <= i < self.bind_group_layout.entries@.len()
                    ==> #[trigger] self.bind_group_layout.entries@[i].ty matches BindingType::StorageTexture {
                    read_only: true,
                    ..
                },
            forall|i: int|
                0 <= i < self.uniform_bind_group.entries@.len()
                    ==> #[trigger] self.uniform_bind_group.entries@[i].resource
                    != BindingResource::TextureView(output.texture_of(WgpuView::Output).id),
            forall|i: int|
                0 <= i < self.bind_group.entries@.len() ==> #[trigger] self.bind_group.entries@[i].resource
                    != BindingResource::TextureView(output.texture_of(WgpuView::Output).id),
    {
        let out = output.texture_of(WgpuView::Output);
        assert(output.texture_of(WgpuView::Radiance).id != out.id);
        assert(output.texture_of(WgpuView::Albedo).id != out.id);
        assert(output.texture_of(WgpuView::Normal).id != out.id);
        assert(output.texture_of(WgpuView::GBuffer).id != out.id);
        assert(output.texture_of(WgpuView::MatParams).id != out.id);
    }

    /// The lighting stage and the occlusion stage write disjoint buffers: the
    /// radiance slot differs from the slot that the estimate and each blur
    /// step write. So the two may be recorded in either order.
    pub proof fn lemma_disjoint_from_occlusion(
        self,
        ssao: SsaoPass,
        output: WgpuOutput,
        lights: WgpuLights,
        camera_buffer: Buffer,
        material_buffer: Buffer,
    )
        requires
            self.bound_to(output, lights, camera_buffer, material_buffer),
            ssao.bound_to(output),
            output.wf(),
        ensures
            self.uniform_bind_group.entries@[2].resource != ssao.bind_group.entries@[0].resource,
            self.uniform_bind_group.entries@[2].resource
                != ssao.filter_bind_group1.entries@[0].resource,
            self.uniform_bind_group.entries@[2].resource
                != ssao.filter_bind_group2.entries@[0].resource,
    {
        assert(output.texture_of(WgpuView::Radiance).id != output.texture_of(WgpuView::Ssao).id);
        assert(output.texture_of(WgpuView::Radiance).id != output.texture_of(
            WgpuView::FilteredSsao,
        ).id);
    }
}

} // verus!
