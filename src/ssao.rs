use vstd::prelude::*;

use crate::gpu::{
    horizontal, vertical, BindGroup, BindGroupEntry, BindGroupLayout, BindGroupLayoutEntry,
    BindingResource, BindingType, Buffer, BufferUsage, Command, CommandEncoder, ComputePipeline,
    Device, DirectionBuffer, FilterDirection, Sampler, SamplerKind, Shader, ShaderStage,
    TextureFormat, IDS_PER_CALL,
};
use crate::output::WgpuOutput;
use crate::pass::{ceil_div, tile_count};
use crate::view::WgpuView;

verus! {

/// Slots of the occlusion estimate: the raw occlusion buffer as a writable
/// storage image, a filtering sampler, and the screen-space and normal
/// buffers as filterable textures.
pub open spec fn ssao_layout_entries() -> Seq<BindGroupLayoutEntry> {
    seq![
        BindGroupLayoutEntry {
            binding: 0,
            visibility: ShaderStage::Compute,
            ty: BindingType::StorageTexture { format: TextureFormat::R16Float, read_only: false },
        },
        BindGroupLayoutEntry {
            binding: 1,
            visibility: ShaderStage::Compute,
            ty: BindingType::Sampler { filtering: true },
        },
        BindGroupLayoutEntry {
            binding: 2,
            visibility: ShaderStage::Compute,
            ty: BindingType::Texture { filterable: true, array: false },
        },
        BindGroupLayoutEntry {
            binding: 3,
            visibility: ShaderStage::Compute,
            ty: BindingType::Texture { filterable: true, array: false },
        },
    ]
}

/// Slots of one blur step: the target as a writable storage image, the
/// source as a read-only one, and the direction uniform.
pub open spec fn filter_layout_entries() -> Seq<BindGroupLayoutEntry> {
    seq![
        BindGroupLayoutEntry {
            binding: 0,
            visibility: ShaderStage::Compute,
            ty: BindingType::StorageTexture { format: TextureFormat::R16Float, read_only: false },
        },
        BindGroupLayoutEntry {
            binding: 1,
            visibility: ShaderStage::Compute,
            ty: BindingType::StorageTexture { format: TextureFormat::R16Float, read_only: true },
        },
        BindGroupLayoutEntry {
            binding: 2,
            visibility: ShaderStage::Compute,
            ty: BindingType::UniformBuffer { min_binding_size: 0 },
        },
    ]
}

/// Usage of the buffers that hold a constant direction: copy source only.
pub open spec fn copy_source_usage() -> BufferUsage {
    BufferUsage { uniform: false, storage: false, copy_src: true, copy_dst: false }
}

/// Usage of the direction uniform: uniform and copy destination.
pub open spec fn direction_uniform_usage() -> BufferUsage {
    BufferUsage { uniform: true, storage: false, copy_src: false, copy_dst: true }
}

/// Size in bytes of a filter direction: two 32-bit integers.
pub const DIRECTION_SIZE: u64 = 8;

/// Estimates ambient occlusion into the occlusion buffer, then blurs it with
/// a separable filter: horizontally into the scratch buffer, vertically back.
#[derive(Debug)]
pub struct SsaoPass {
    pub sampler: Sampler,
    pub bind_group_layout: BindGroupLayout,
    pub bind_group: BindGroup,
    pub pipeline: ComputePipeline,
    pub filter_uniform_direction_buffer: Buffer,
    pub filter_direction_x: DirectionBuffer,
    pub filter_direction_y: DirectionBuffer,
    pub filter_bind_group_layout: BindGroupLayout,
    /// Blurs the occlusion buffer into the scratch buffer.
    pub filter_bind_group1: BindGroup,
    /// Blurs the scratch buffer back into the occlusion buffer.
    pub filter_bind_group2: BindGroup,
    pub filter_pipeline: ComputePipeline,
}

impl SsaoPass {
    /// Layouts, pipelines, sampler and the three direction buffers are in place.
    pub open spec fn wf(self) -> bool {
        &&& self.sampler.kind == SamplerKind::NearestClamp
        &&& self.bind_group_layout.entries@ == ssao_layout_entries()
        &&& self.pipeline.layouts@.len() == 2
        &&& self.pipeline.layouts@[1] == self.bind_group_layout.id
        &&& self.pipeline.shader == Shader::Ssao
        &&& self.filter_bind_group_layout.entries@ == filter_layout_entries()
        &&& self.filter_pipeline.layouts@ == seq![self.filter_bind_group_layout.id]
        &&& self.filter_pipeline.shader == Shader::SsaoFilter
        &&& self.filter_direction_x.direction == horizontal()
        &&& self.filter_direction_x.buffer.size == DIRECTION_SIZE
        &&& self.filter_direction_x.buffer.usage == copy_source_usage()
        &&& self.filter_direction_y.direction == vertical()
        &&& self.filter_direction_y.buffer.size == DIRECTION_SIZE
        &&& self.filter_direction_y.buffer.usage == copy_source_usage()
        &&& self.filter_uniform_direction_buffer.size == DIRECTION_SIZE
        &&& self.filter_uniform_direction_buffer.usage == direction_uniform_usage()
        &&& self.filter_uniform_direction_buffer.id != self.filter_direction_x.buffer.id
        &&& self.filter_uniform_direction_buffer.id != self.filter_direction_y.buffer.id
        &&& self.filter_direction_x.buffer.id != self.filter_direction_y.buffer.id
    }

    /// The slots of the estimate binding set for `output`, sampling with
    /// `sampler`: the occlusion buffer to write, then the screen-space and
    /// normal buffers to read.
    pub open spec fn estimate_entries(output: WgpuOutput, sampler: u64) -> Seq<BindGroupEntry> {
        seq![
            output.view_entry(0, WgpuView::Ssao),
            BindGroupEntry { binding: 1, resource: BindingResource::Sampler(sampler) },
            output.view_entry(2, WgpuView::ScreenSpace),
            output.view_entry(3, WgpuView::Normal),
        ]
    }

    /// The slots of a blur step of `output` that writes `target` from
    /// `source`, reading its axis from the uniform buffer `direction`.
    pub open spec fn blur_entries(
        output: WgpuOutput,
        target: WgpuView,
        source: WgpuView,
        direction: u64,
    ) -> Seq<BindGroupEntry> {
        seq![
            output.view_entry(0, target),
            output.view_entry(1, source),
            BindGroupEntry { binding: 2, resource: BindingResource::Buffer(direction) },
        ]
    }

    /// The three binding sets read and write the current buffers of `output`:
    /// the estimate writes the occlusion buffer from the screen-space and
    /// normal buffers; the first blur writes the scratch buffer from the
    /// occlusion buffer, the second (a distinct set) the reverse.
    pub open spec fn bound_to(self, output: WgpuOutput) -> bool {
        let direction = self.filter_uniform_direction_buffer.id;
        &&& self.bind_group.layout == self.bind_group_layout.id
        &&& self.bind_group.entries@ == Self::estimate_entries(output, self.sampler.id)
        &&& self.filter_bind_group1.layout == self.filter_bind_group_layout.id
        &&& self.filter_bind_group1.entries@ == Self::blur_entries(
            output,
            WgpuView::FilteredSsao,
            WgpuView::Ssao,
            direction,
        )
        &&& self.filter_bind_group1.id != self.filter_bind_group2.id
        &&& self.filter_bind_group2.layout == self.filter_bind_group_layout.id
        &&& self.filter_bind_group2.entries@ == Self::blur_entries(
            output,
            WgpuView::Ssao,
            WgpuView::FilteredSsao,
            direction,
        )
    }

    /// `self` keeps the layouts, pipelines, sampler and buffers of `other`.
    pub open spec fn same_objects(self, other: SsaoPass) -> bool {
        &&& self.sampler == other.sampler
        &&& self.bind_group_layout.id == other.bind_group_layout.id
        &&& self.pipeline.id == other.pipeline.id
        &&& self.filter_uniform_direction_buffer == other.filter_uniform_direction_buffer
        &&& self.filter_direction_x == other.filter_direction_x
        &&& self.filter_direction_y == other.filter_direction_y
        &&& self.filter_bind_group_layout.id == other.filter_bind_group_layout.id
        &&& self.filter_pipeline.id == other.filter_pipeline.id
    }

    /// The identities of the three binding sets lie in `[lo, hi)`.
    pub open spec fn groups_within(self, lo: nat, hi: nat) -> bool {
        &&& lo <= self.bind_group.id < hi
        &&& lo <= self.filter_bind_group1.id < hi
        &&& lo <= self.filter_bind_group2.id < hi
    }

    /// The estimate binding set and the two blur binding sets for `output`,
    /// with consecutive identities.
    fn create_bind_groups(
        device: &mut Device,
        layout: u64,
        sampler: u64,
        filter_layout: u64,
        direction: u64,
        output: &WgpuOutput,
    ) -> (r: (BindGroup, BindGroup, BindGroup))
        requires
            old(device).can_allocate(3),
        ensures
            final(device).next() == old(device).next() + 3,
            r.0.id == old(device).next(),
            r.1.id == old(device).next() + 1,
            r.2.id == old(device).next() + 2,
            r.0.layout == layout,
            r.0.entries@ == Self::estimate_entries(*output, sampler),
            r.1.layout == filter_layout,
            r.1.entries@ == Self::blur_entries(
                *output,
                WgpuView::FilteredSsao,
                WgpuView::Ssao,
                direction,
            ),
            r.2.layout == filter_layout,
            r.2.entries@ == Self::blur_entries(
                *output,
                WgpuView::Ssao,
                WgpuView::FilteredSsao,
                direction,
            ),
    {
        let id = device.allocate();
        let bind_group = BindGroup {
            id,
            layout,
            entries: vec![
                output.as_binding(0, WgpuView::Ssao),
                BindGroupEntry { binding: 1, resource: BindingResource::Sampler(sampler) },
                output.as_binding(2, WgpuView::ScreenSpace),
                output.as_binding(3, WgpuView::Normal),
            ],
        };
        let id1 = device.allocate();
        let filter_bind_group1 = BindGroup {
            id: id1,
            layout: filter_layout,
            entries: vec![
                output.as_binding(0, WgpuView::FilteredSsao),
                output.as_binding(1, WgpuView::Ssao),
                BindGroupEntry { binding: 2, resource: BindingResource::Buffer(direction) },
            ],
        };
        let id2 = device.allocate();
        let filter_bind_group2 = BindGroup {
            id: id2,
            layout: filter_layout,
            entries: vec![
                output.as_binding(0, WgpuView::Ssao),
                output.as_binding(1, WgpuView::FilteredSsao),
                BindGroupEntry { binding: 2, resource: BindingResource::Buffer(direction) },
            ],
        };
        (bind_group, filter_bind_group1, filter_bind_group2)
    }

    /// Builds the estimate and blur pipelines against the camera uniform
    /// layout, the direction buffers, and binding sets for `output`.
    pub fn new(
        device: &mut Device,
        uniform_bind_group_layout: &BindGroupLayout,
        output: &WgpuOutput,
    ) -> (r: Self)
        requires
            old(device).can_allocate(IDS_PER_CALL as nat),
        ensures
            r.wf(),
            r.bound_to(*output),
            r.pipeline.layouts@[0] == uniform_bind_group_layout.id,
            r.groups_within(old(device).next(), final(device).next()),
            old(device).next() <= final(device).next() <= old(device).next() + IDS_PER_CALL,
    {
        let sampler_id = device.allocate();
        let sampler = Sampler { id: sampler_id, kind: SamplerKind::NearestClamp };
        let layout_id = device.allocate();
        let bind_group_layout = BindGroupLayout {
            id: layout_id,
            entries: vec![
                output.as_storage_entry(0, ShaderStage::Compute, WgpuView::Ssao, false),
                BindGroupLayoutEntry {
                    binding: 1,
                    visibility: ShaderStage::Compute,
                    ty: BindingType::Sampler { filtering: true },
                },
                output.as_sampled_entry(2, ShaderStage::Compute),
                output.as_sampled_entry(3, ShaderStage::Compute),
            ],
        };
        let pipeline_id = device.allocate();
        let pipeline = ComputePipeline {
            id: pipeline_id,
            layouts: vec![uniform_bind_group_layout.id, layout_id],
            shader: Shader::Ssao,
        };
        let filter_layout_id = device.allocate();
        let filter_bind_group_layout = BindGroupLayout {
            id: filter_layout_id,
            entries: vec![
                output.as_storage_entry(0, ShaderStage::Compute, WgpuView::Ssao, false),
                output.as_storage_entry(1, ShaderStage::Compute, WgpuView::Ssao, true),
                BindGroupLayoutEntry {
                    binding: 2,
                    visibility: ShaderStage::Compute,
                    ty: BindingType::UniformBuffer { min_binding_size: 0 },
                },
            ],
        };
        let copy_source = BufferUsage {
            uniform: false,
            storage: false,
            copy_src: true,
            copy_dst: false,
        };
        let x_id = device.allocate();
        let filter_direction_x = DirectionBuffer {
            buffer: Buffer { id: x_id, size: DIRECTION_SIZE, usage: copy_source },
            direction: FilterDirection { x: 1, y: 0 },
        };
        let y_id = device.allocate();
        let filter_direction_y = DirectionBuffer {
            buffer: Buffer { id: y_id, size: DIRECTION_SIZE, usage: copy_source },
            direction: FilterDirection { x: 0, y: 1 },
        };
        let uniform_id = device.allocate();
        let filter_uniform_direction_buffer = Buffer {
            id: uniform_id,
            size: DIRECTION_SIZE,
            usage: BufferUsage { uniform: true, storage: false, copy_src: false, copy_dst: true },
        };
        let filter_pipeline_id = device.allocate();
        let filter_pipeline = ComputePipeline {
            id: filter_pipeline_id,
            layouts: vec![filter_layout_id],
            shader: Shader::SsaoFilter,
        };
        assert(bind_group_layout.entries@ == ssao_layout_entries());
        assert(filter_bind_group_layout.entries@ == filter_layout_entries());
        assert(filter_pipeline.layouts@ == seq![filter_layout_id]);
        let (bind_group, filter_bind_group1, filter_bind_group2) = Self::create_bind_groups(
            device,
            layout_id,
            sampler_id,
            filter_layout_id,
            uniform_id,
            output,
        );
        SsaoPass {
            sampler,
            bind_group_layout,
            bind_group,
            pipeline,
            filter_uniform_direction_buffer,
            filter_direction_x,
            filter_direction_y,
            filter_bind_group_layout,
            filter_bind_group1,
            filter_bind_group2,
            filter_pipeline,
        }
    }

    /// Rebuilds the estimate binding set and both blur binding sets against
    /// the current buffers of `output`. The direction uniform keeps its
    /// identity: its size does not depend on the resolution.
    pub fn update_bind_groups(&mut self, device: &mut Device, output: &WgpuOutput)
        requires
            old(self).wf(),
            old(device).can_allocate(3),
        ensures
            final(self).wf(),
            final(self).bound_to(*output),
            final(self).same_objects(*old(self)),
            final(self).groups_within(old(device).next(), final(device).next()),
            final(device).next() == old(device).next() + 3,
    {
        let (g0, g1, g2) = Self::create_bind_groups(
            device,
            self.bind_group_layout.id,
            self.sampler.id,
            self.filter_bind_group_layout.id,
            self.filter_uniform_direction_buffer.id,
            output,
        );
        self.bind_group = g0;
        self.filter_bind_group1 = g1;
        self.filter_bind_group2 = g2;
    }

    /// Whether all three binding sets refer to the current buffers of `output`.
    pub fn is_bound_to(&self, output: &WgpuOutput) -> (r: bool)
        ensures
            r == self.bound_to(*output),
    {
        let e = &self.bind_group.entries;
        let e1 = &self.filter_bind_group1.entries;
        let e2 = &self.filter_bind_group2.entries;
        let ssao0 = output.as_binding(0, WgpuView::Ssao);
        let sampler = BindGroupEntry {
            binding: 1,
            resource: BindingResource::Sampler(self.sampler.id),
        };
        let screen = output.as_binding(2, WgpuView::ScreenSpace);
        let normal = output.as_binding(3, WgpuView::Normal);
        let filtered0 = output.as_binding(0, WgpuView::FilteredSsao);
        let ssao1 = output.as_binding(1, WgpuView::Ssao);
        let filtered1 = output.as_binding(1, WgpuView::FilteredSsao);
        let direction = BindGroupEntry {
            binding: 2,
            resource: BindingResource::Buffer(self.filter_uniform_direction_buffer.id),
        };
        let estimate_ok = self.bind_group.layout == self.bind_group_layout.id && e.len() == 4
            && e[0] == ssao0 && e[1] == sampler && e[2] == screen && e[3] == normal;
        let first_ok = self.filter_bind_group1.layout == self.filter_bind_group_layout.id
            && e1.len() == 3 && e1[0] == filtered0 && e1[1] == ssao1 && e1[2] == direction;
        let second_ok = self.filter_bind_group1.id != self.filter_bind_group2.id
            && self.filter_bind_group2.layout == self.filter_bind_group_layout.id
            && e2.len() == 3 && e2[0] == ssao0 && e2[1] == filtered1 && e2[2] == direction;
        proof {
            if estimate_ok {
                assert(e@ =~= seq![ssao0, sampler, screen, normal]);
            }
            if first_ok {
                assert(e1@ =~= seq![filtered0, ssao1, direction]);
            }
            if second_ok {
                assert(e2@ =~= seq![ssao0, filtered1, direction]);
            }
        }
        estimate_ok && first_ok && second_ok
    }

    /// Whether the occlusion estimate over `width × height` pixels fits a
    /// 32-bit group count, as `launch` needs.
    pub fn estimate_fits(width: u32, height: u32) -> (r: bool)
        ensures
            r == (ceil_div(width as int * height as int, 64) <= u32::MAX),
    {
        assert(width as int * height as int <= u32::MAX as int * u32::MAX as int) by (
        nonlinear_arith)
            requires
                width <= u32::MAX,
                height <= u32::MAX,
        ;
        let pixels: u64 = width as u64 * height as u64;
        (pixels + 63) / 64 <= u32::MAX as u64
    }

    /// The five operations of one launch over `width × height` pixels, with
    /// the camera uniforms bound through binding set `uniforms`.
    pub open spec fn launch_commands(self, width: u32, height: u32, uniforms: u64) -> Seq<
        Command,
    > {
        let tiles_x = ceil_div(width as int, 8) as u32;
        let tiles_y = ceil_div(height as int, 8) as u32;
        seq![
            Command::CopyBufferToBuffer {
                source: self.filter_direction_x.buffer.id,
                destination: self.filter_uniform_direction_buffer.id,
                size: DIRECTION_SIZE,
            },
            Command::Dispatch {
                pipeline: self.pipeline.id,
                group0: uniforms,
                group1: Some(self.bind_group.id),
                group2: None,
                x: ceil_div(width as int * height as int, 64) as u32,
                y: 1,
                z: 1,
            },
            Command::Dispatch {
                pipeline: self.filter_pipeline.id,
                group0: self.filter_bind_group1.id,
                group1: None,
                group2: None,
                x: tiles_x,
                y: tiles_y,
                z: 1,
            },
            Command::CopyBufferToBuffer {
                source: self.filter_direction_y.buffer.id,
                destination: self.filter_uniform_direction_buffer.id,
                size: DIRECTION_SIZE,
            },
            Command::Dispatch {
                pipeline: self.filter_pipeline.id,
                group0: self.filter_bind_group2.id,
                group1: None,
                group2: None,
                x: tiles_x,
                y: tiles_y,
                z: 1,
            },
        ]
    }

    /// Records, on one stream: the upload of `(1, 0)` into the direction
    /// uniform and the occlusion estimate over `ceil(width·height / 64)`
    /// groups; the horizontal blur into the scratch buffer over
    /// `ceil(width / 8) × ceil(height / 8)` groups; the upload of `(0, 1)` and
    /// the vertical blur back into the occlusion buffer over the same grid.
    ///
    /// The binding sets must be current for `output`: after a resize,
    /// `update_bind_groups` has to run first.
    pub fn launch(
        &self,
        encoder: &mut CommandEncoder,
        width: u32,
        height: u32,
        uniform_bind_group: &BindGroup,
        output: &WgpuOutput,
    )
        requires
            self.bound_to(*output),
            ceil_div(width as int * height as int, 64) <= u32::MAX,
        ensures
            final(encoder)@ == old(encoder)@ + self.launch_commands(
                width,
                height,
                uniform_bind_group.id,
            ),
    {
        assert(width as int * height as int <= u32::MAX as int * u32::MAX as int) by (
        nonlinear_arith)
            requires
                width <= u32::MAX,
                height <= u32::MAX,
        ;
        let pixels: u64 = width as u64 * height as u64;
        let estimate_groups = ((pixels + 63) / 64) as u32;
        let tiles_x = tile_count(width);
        let tiles_y = tile_count(height);
        encoder.record(
            Command::CopyBufferToBuffer {
                source: self.filter_direction_x.buffer.id,
                destination: self.filter_uniform_direction_buffer.id,
                size: DIRECTION_SIZE,
            },
        );
        encoder.record(
            Command::Dispatch {
                pipeline: self.pipeline.id,
                group0: uniform_bind_group.id,
                group1: Some(self.bind_group.id),
                group2: None,
                x: estimate_groups,
                y: 1,
                z: 1,
            },
        );
        encoder.record(
            Command::Dispatch {
                pipeline: self.filter_pipeline.id,
                group0: self.filter_bind_group1.id,
                group1: None,
                group2: None,
                x: tiles_x,
                y: tiles_y,
                z: 1,
            },
        );
        encoder.record(
            Command::CopyBufferToBuffer {
                source: self.filter_direction_y.buffer.id,
                destination: self.filter_uniform_direction_buffer.id,
                size: DIRECTION_SIZE,
            },
        );
        encoder.record(
            Command::Dispatch {
                pipeline: self.filter_pipeline.id,
                group0: self.filter_bind_group2.id,
                group1: None,
                group2: None,
                x: tiles_x,
                y: tiles_y,
                z: 1,
            },
        );
        assert(encoder@ =~= old(encoder)@ + self.launch_commands(
            width,
            height,
            uniform_bind_group.id,
        ));
    }

    /// The direction that the uniform of this pass holds after `cmds` ran,
    /// starting from `init`: each copy of a direction buffer into it sets it,
    /// a copy from anywhere else makes it unknown (`None`).
    pub open spec fn direction_after(self, cmds: Seq<Command>, init: Option<FilterDirection>) -> Option<
        FilterDirection,
    >
        decreases cmds.len(),
    {
        if cmds.len() == 0 {
            init
        } else {
            let before = self.direction_after(cmds.drop_last(), init);
            match cmds.last() {
                Command::CopyBufferToBuffer { source, destination, size } => {
                    if destination != self.filter_uniform_direction_buffer.id {
                        before
                    } else if source == self.filter_direction_x.buffer.id && size
                        == DIRECTION_SIZE {
                        Some(self.filter_direction_x.direction)
                    } else if source == self.filter_direction_y.buffer.id && size
                        == DIRECTION_SIZE {
                        Some(self.filter_direction_y.direction)
                    } else {
                        None
                    }
                },
                _ => before,
            }
        }
    }

    /// The buffer that a blur dispatch of this pass writes: slot 0 of its
    /// binding set.
    pub open spec fn blur_target(self, c: Command) -> Option<u64> {
        match c {
            Command::Dispatch { pipeline, group0, .. } => {
                if pipeline != self.filter_pipeline.id {
                    None
                } else if group0 == self.filter_bind_group2.id {
                    written_slot(self.filter_bind_group2)
                } else if group0 == self.filter_bind_group1.id {
                    written_slot(self.filter_bind_group1)
                } else {
                    None
                }
            },
            _ => None,
        }
    }

    /// Whatever was recorded before and whatever the direction uniform held,
    /// a launch blurs horizontally into the scratch buffer with `(1, 0)`
    /// freshly uploaded, then vertically with `(0, 1)`, and its last
    /// operation leaves the blurred result in the occlusion buffer. So any
    /// number of launches in sequence ends with the result there.
    pub proof fn lemma_launch_ends_in_ssao(
        self,
        output: WgpuOutput,
        pre: Seq<Command>,
        init: Option<FilterDirection>,
        width: u32,
        height: u32,
        uniforms: u64,
    )
        requires
            self.wf(),
            self.bound_to(output),
        ensures
            ({
                let cmds = pre + self.launch_commands(width, height, uniforms);
                let n = pre.len() as int;
                &&& self.direction_after(cmds.take(n + 2), init) == Some(horizontal())
                &&& self.blur_target(cmds[n + 2]) == Some(
                    output.texture_of(WgpuView::FilteredSsao).id,
                )
                &&& self.direction_after(cmds.take(n + 4), init) == Some(vertical())
                &&& self.blur_target(cmds[n + 4]) == Some(output.texture_of(WgpuView::Ssao).id)
                &&& cmds.len() == n + 5
            }),
    {
        let block = self.launch_commands(width, height, uniforms);
        let cmds = pre + block;
        let n = pre.len() as int;
        assert(cmds.take(n + 2).drop_last() =~= cmds.take(n + 1));
        assert(cmds.take(n + 1).drop_last() =~= pre);
        assert(cmds.take(n + 2).last() == block[1]);
        assert(cmds.take(n + 1).last() == block[0]);
        assert(cmds.take(n + 4).last() == block[3]);
        assert(cmds[n + 2] == block[2]);
        assert(cmds[n + 4] == block[4]);
        assert(self.filter_bind_group1.entries@[0] == output.view_entry(0, WgpuView::FilteredSsao));
        assert(self.filter_bind_group2.entries@[0] == output.view_entry(0, WgpuView::Ssao));
        assert(self.direction_after(cmds.take(n + 1), init) == Some(horizontal()));
        assert(self.direction_after(cmds.take(n + 2), init) == Some(horizontal()));
        assert(self.blur_target(cmds[n + 2]) == Some(output.texture_of(WgpuView::FilteredSsao).id));
        assert(self.direction_after(cmds.take(n + 4), init) == Some(vertical()));
        assert(self.blur_target(cmds[n + 4]) == Some(output.texture_of(WgpuView::Ssao).id));
    }

    /// After the buffer set is resized, binding sets built for the old
    /// buffers are stale: they do not refer to the new buffers until
    /// `update_bind_groups` runs.
    pub proof fn lemma_stale_after_resize(
        self,
        before: WgpuOutput,
        after: WgpuOutput,
        width: u32,
        height: u32,
        lo: nat,
        hi: nat,
    )
        requires
            self.bound_to(before),
            WgpuOutput::resized(before, after, width, height, lo, hi),
        ensures
            !self.bound_to(after),
    {
        assert(before.texture_of(WgpuView::Ssao).id < lo);
        assert(lo <= after.texture_of(WgpuView::Ssao).id);
        if self.bound_to(after) {
            assert(self.bind_group.entries@[0] == before.view_entry(0, WgpuView::Ssao));
            assert(self.bind_group.entries@[0] == after.view_entry(0, WgpuView::Ssao));
        }
    }

    /// Any number of launches in a row with the same arguments, after any
    /// earlier commands, append as many copies of one five-step sequence; in
    /// each copy the horizontal blur runs with `(1, 0)` freshly uploaded, the
    /// vertical one with `(0, 1)`, and the last step leaves the blurred result
    /// in the occlusion buffer.
    pub proof fn lemma_repeated_launches(
        self,
        output: WgpuOutput,
        pre: Seq<Command>,
        init: Option<FilterDirection>,
        width: u32,
        height: u32,
        uniforms: u64,
        n: nat,
        k: nat,
    )
        requires
            self.wf(),
            self.bound_to(output),
            k < n,
        ensures
            ({
                let block = self.launch_commands(width, height, uniforms);
                let cmds = pre + repeated(block, n);
                let start = pre.len() + 5 * k as int;
                &&& cmds.len() == pre.len() + 5 * n
                &&& cmds.subrange(start, start + 5) == block
                &&& self.direction_after(cmds.take(start + 2), init) == Some(horizontal())
                &&& self.blur_target(cmds[start + 2]) == Some(
                    output.texture_of(WgpuView::FilteredSsao).id,
                )
                &&& self.direction_after(cmds.take(start + 4), init) == Some(vertical())
                &&& self.blur_target(cmds[start + 4]) == Some(
                    output.texture_of(WgpuView::Ssao).id,
                )
            }),
    {
        let block = self.launch_commands(width, height, uniforms);
        let cmds = pre + repeated(block, n);
        let start = pre.len() + 5 * k as int;
        lemma_repeated_prefix(block, n, k + 1);
        lemma_repeated_prefix(block, n, n);
        let before = pre + repeated(block, k);
        let q = before + block;
        assert(repeated(block, k + 1) == repeated(block, k) + block);
        assert(cmds.take(start + 5) =~= q);
        self.lemma_launch_ends_in_ssao(output, before, init, width, height, uniforms);
        assert(cmds.take(start + 2) =~= q.take(start + 2));
        assert(cmds.take(start + 4) =~= q.take(start + 4));
        assert(cmds[start + 2] == q[start + 2]);
        assert(cmds[start + 4] == q[start + 4]);
        assert(cmds.subrange(start, start + 5) =~= block);
    }
}

/// The texture that slot 0 of a binding set refers to, if any.
pub open spec fn written_slot(g: BindGroup) -> Option<u64> {
    if g.entries@.len() > 0 {
        match g.entries@[0].resource {
            BindingResource::TextureView(id) => Some(id),
            _ => None,
        }
    } else {
        None
    }
}

/// `n` copies of `block`, one after another.
pub open spec fn repeated(block: Seq<Command>, n: nat) -> Seq<Command>
    decreases n,
{
    if n == 0 {
        Seq::empty()
    } else {
        repeated(block, (n - 1) as nat) + block
    }
}

/// The first `j` copies of a five-step block are a prefix of the first `m`.
pub proof fn lemma_repeated_prefix(block: Seq<Command>, m: nat, j: nat)
    requires
        block.len() == 5,
        j <= m,
    ensures
        repeated(block, m).len() == 5 * m,
        repeated(block, m).take(5 * j as int) == repeated(block, j),
    decreases m,
{
    if m > 0 {
        let prev = (m - 1) as nat;
        if j == m {
            lemma_repeated_prefix(block, prev, prev);
            assert(repeated(block, m).take(5 * j as int) =~= repeated(block, m));
        } else {
            lemma_repeated_prefix(block, prev, j);
            assert(repeated(block, m).take(5 * j as int) =~= repeated(block, prev).take(
                5 * j as int,
            ));
        }
    } else {
        assert(repeated(block, 0).take(0) =~= repeated(block, 0));
    }
}

} // verus!
