use vstd::prelude::*;

use crate::gpu::{
    BindGroup, BindGroupEntry, BindGroupLayout, BindGroupLayoutEntry, BindingResource,
    BindingType, Command, CommandEncoder, Device, RenderPipeline, Sampler, SamplerKind, Shader,
    ShaderStage, TextureFormat, IDS_PER_CALL,
};
use crate::output::WgpuOutput;
use crate::view::WgpuView;

verus! {

/// `a / b` rounded up.
pub open spec fn ceil_div(a: int, b: int) -> int {
    (a + b - 1) / b
}

/// The number of 8-wide tiles that cover `n` pixels.
pub fn tile_count(n: u32) -> (r: u32)
    ensures
        r == ceil_div(n as int, 8),
{
    ((n as u64 + 7) / 8) as u32
}

/// Slots of the plain output blit: a filterable texture and a filtering
/// sampler, seen by the fragment stage.
pub open spec fn quad_layout_entries() -> Seq<BindGroupLayoutEntry> {
    seq![
        BindGroupLayoutEntry {
            binding: 0,
            visibility: ShaderStage::Fragment,
            ty: BindingType::Texture { filterable: true, array: false },
        },
        BindGroupLayoutEntry {
            binding: 1,
            visibility: ShaderStage::Fragment,
            ty: BindingType::Sampler { filtering: true },
        },
    ]
}

/// Full-screen pass that shows the output buffer on a display target.
#[derive(Debug)]
pub struct QuadPass {
    pub bind_group_layout: BindGroupLayout,
    pub bind_group: BindGroup,
    pub pipeline: RenderPipeline,
    pub sampler: Sampler,
}

impl QuadPass {
    /// Layout, sampler and pipeline are in place.
    pub open spec fn wf(self) -> bool {
        &&& self.bind_group_layout.entries@ == quad_layout_entries()
        &&& self.sampler.kind == SamplerKind::NearestClamp
        &&& self.pipeline.layouts@ == seq![self.bind_group_layout.id]
        &&& self.pipeline.vertex == Shader::QuadVertex
        &&& self.pipeline.fragment == Shader::QuadFragment
        &&& self.pipeline.target == TextureFormat::Bgra8UnormSrgb
    }

    /// The slots of a binding set that reads the output buffer of `output`
    /// through `sampler`.
    pub open spec fn entries_for(output: WgpuOutput, sampler: u64) -> Seq<BindGroupEntry> {
        seq![
            output.view_entry(0, WgpuView::Output),
            BindGroupEntry { binding: 1, resource: BindingResource::Sampler(sampler) },
        ]
    }

    /// The binding set reads the current output buffer of `output`.
    pub open spec fn bound_to(self, output: WgpuOutput) -> bool {
        &&& self.bind_group.layout == self.bind_group_layout.id
        &&& self.bind_group.entries@ == Self::entries_for(output, self.sampler.id)
    }

    /// `self` keeps the layout, pipeline and sampler of `other`.
    pub open spec fn same_objects(self, other: QuadPass) -> bool {
        &&& self.bind_group_layout.id == other.bind_group_layout.id
        &&& self.pipeline.id == other.pipeline.id
        &&& self.sampler == other.sampler
    }

    fn create_bind_group(device: &mut Device, layout: u64, sampler: u64, output: &WgpuOutput) -> (r:
        BindGroup)
        requires
            old(device).can_allocate(1),
        ensures
            r.id == old(device).next(),
            final(device).next() == old(device).next() + 1,
            r.layout == layout,
            r.entries@ == Self::entries_for(*output, sampler),
    {
        let id = device.allocate();
        BindGroup {
            id,
            layout,
            entries: vec![
                output.as_binding(0, WgpuView::Output),
                BindGroupEntry { binding: 1, resource: BindingResource::Sampler(sampler) },
            ],
        }
    }

    pub fn new(device: &mut Device, output: &WgpuOutput) -> (r: Self)
        requires
            old(device).can_allocate(IDS_PER_CALL as nat),
        ensures
            r.wf(),
            r.bound_to(*output),
            old(device).next() <= r.bind_group.id < final(device).next(),
            old(device).next() <= final(device).next() <= old(device).next() + IDS_PER_CALL,
    {
        let layout_id = device.allocate();
        let bind_group_layout = BindGroupLayout {
            id: layout_id,
            entries: vec![
                output.as_sampled_entry(0, ShaderStage::Fragment),
                BindGroupLayoutEntry {
                    binding: 1,
                    visibility: ShaderStage::Fragment,
                    ty: BindingType::Sampler { filtering: true },
                },
            ],
        };
        let sampler_id = device.allocate();
        let sampler = Sampler { id: sampler_id, kind: SamplerKind::NearestClamp };
        let pipeline_id = device.allocate();
        let pipeline = RenderPipeline {
            id: pipeline_id,
            layouts: vec![layout_id],
            vertex: Shader::QuadVertex,
            fragment: Shader::QuadFragment,
            target: WgpuOutput::OUTPUT_FORMAT,
        };
        assert(pipeline.layouts@ == seq![layout_id]);
        assert(bind_group_layout.entries@ == quad_layout_entries());
        let bind_group = Self::create_bind_group(device, layout_id, sampler_id, output);
        QuadPass { bind_group_layout, bind_group, pipeline, sampler }
    }

    /// Rebuilds the binding set against the current buffers of `output`.
    pub fn update_bind_groups(&mut self, device: &mut Device, output: &WgpuOutput)
        requires
            old(self).wf(),
            old(device).can_allocate(1),
        ensures
            final(self).wf(),
            final(self).bound_to(*output),
            final(self).same_objects(*old(self)),
            final(self).bind_group.id == old(device).next(),
            final(device).next() == old(device).next() + 1,
    {
        self.bind_group = Self::create_bind_group(
            device,
            self.bind_group_layout.id,
            self.sampler.id,
            output,
        );
    }

    /// Whether the binding set reads the current buffers of `output`.
    pub fn is_bound_to(&self, output: &WgpuOutput) -> (r: bool)
        ensures
            r == self.bound_to(*output),
    {
        let entries = &self.bind_group.entries;
        let expected = output.as_binding(0, WgpuView::Output);
        let sampler = BindGroupEntry {
            binding: 1,
            resource: BindingResource::Sampler(self.sampler.id),
        };
        let r = self.bind_group.layout == self.bind_group_layout.id && entries.len() == 2
            && entries[0] == expected && entries[1] == sampler;
        proof {
            if r {
                assert(entries@ =~= seq![expected, sampler]);
            }
        }
        r
    }

    /// The command that `render` records.
    pub open spec fn render_command(self, target: u64) -> Command {
        Command::Draw {
            target,
            pipeline: self.pipeline.id,
            bind_group: self.bind_group.id,
            vertices: 6,
            instances: 1,
        }
    }

    /// Records one render pass drawing the output buffer of `output` onto
    /// the display target `target`. The binding set must be current: after
    /// a resize of `output`, `update_bind_groups` has to run first.
    pub fn render(&self, encoder: &mut CommandEncoder, target: u64, output: &WgpuOutput)
        requires
            self.bound_to(*output),
        ensures
            final(encoder)@ == old(encoder)@.push(self.render_command(target)),
    {
        encoder.record(
            Command::Draw {
                target,
                pipeline: self.pipeline.id,
                bind_group: self.bind_group.id,
                vertices: 6,
                instances: 1,
            },
        );
    }

    /// After the buffer set is resized, binding sets built for the old
    /// buffers are stale: they do not refer to the new buffers until
    /// `update_bind_groups` runs.
    pub proof fn lemma_stale_after_resize(
        self,
        before: WgpuOutput,
        after: WgpuOutput,
        width: u32,
        height: u32,
        lo: nat,
        hi: nat,
    )
        requires
            self.bound_to(before),
            WgpuOutput::resized(before, after, width, height, lo, hi),
        ensures
            !self.bound_to(after),
    {
        assert(before.texture_of(WgpuView::Output).id < lo);
        assert(lo <= after.texture_of(WgpuView::Output).id);
        if self.bound_to(after) {
            assert(self.bind_group.entries@[0] == before.view_entry(0, WgpuView::Output));
            assert(self.bind_group.entries@[0] == after.view_entry(0, WgpuView::Output));
        }
    }
}

/// Slots of the composite pass: albedo, radiance and occlusion as
/// read-only storage images, seen by the fragment stage.
pub open spec fn composite_layout_entries() -> Seq<BindGroupLayoutEntry> {
    seq![
        BindGroupLayoutEntry {
            binding: 0,
            visibility: ShaderStage::Fragment,
            ty: BindingType::StorageTexture { format: TextureFormat::Rgba16Float, read_only: true },
        },
        BindGroupLayoutEntry {
            binding: 1,
            visibility: ShaderStage::Fragment,
            ty: BindingType::StorageTexture { format: TextureFormat::Rgba16Float, read_only: true },
        },
        BindGroupLayoutEntry {
            binding: 2,
            visibility: ShaderStage::Fragment,
            ty: BindingType::StorageTexture { format: TextureFormat::R16Float, read_only: true },
        },
    ]
}

/// Full-screen pass that blends albedo, radiance and occlusion onto a
/// display target.
#[derive(Debug)]
pub struct BlitPass {
    pub bind_group_layout: BindGroupLayout,
    pub bind_group: BindGroup,
    pub pipeline: RenderPipeline,
}

impl BlitPass {
    /// Layout and pipeline are in place.
    pub open spec fn wf(self) -> bool {
        &&& self.bind_group_layout.entries@ == composite_layout_entries()
        &&& self.pipeline.layouts@ == seq![self.bind_group_layout.id]
        &&& self.pipeline.vertex == Shader::QuadVertex
        &&& self.pipeline.fragment == Shader::DeferredBlitFragment
        &&& self.pipeline.target == TextureFormat::Bgra8UnormSrgb
    }

    /// The slots of a binding set that reads the albedo, radiance and
    /// occlusion buffers of `output`.
    pub open spec fn entries_for(output: WgpuOutput) -> Seq<BindGroupEntry> {
        seq![
            output.view_entry(0, WgpuView::Albedo),
            output.view_entry(1, WgpuView::Radiance),
            output.view_entry(2, WgpuView::Ssao),
        ]
    }

    /// The binding set reads the current albedo, radiance and occlusion
    /// buffers of `output`.
    pub open spec fn bound_to(self, output: WgpuOutput) -> bool {
        &&& self.bind_group.layout == self.bind_group_layout.id
        &&& self.bind_group.entries@ == Self::entries_for(output)
    }

    /// `self` keeps the layout and pipeline of `other`.
    pub open spec fn same_objects(self, other: BlitPass) -> bool {
        &&& self.bind_group_layout.id == other.bind_group_layout.id
        &&& self.pipeline.id == other.pipeline.id
    }

    fn create_bind_group(device: &mut Device, layout: u64, output: &WgpuOutput) -> (r: BindGroup)
        requires
            old(device).can_allocate(1),
        ensures
            r.id == old(device).next(),
            final(device).next() == old(device).next() + 1,
            r.layout == layout,
            r.entries@ == Self::entries_for(*output),
    {
        let id = device.allocate();
        BindGroup {
            id,
            layout,
            entries: vec![
                output.as_binding(0, WgpuView::Albedo),
                output.as_binding(1, WgpuView::Radiance),
                output.as_binding(2, WgpuView::Ssao),
            ],
        }
    }

    pub fn new(device: &mut Device, output: &WgpuOutput) -> (r: Self)
        requires
            old(device).can_allocate(IDS_PER_CALL as nat),
        ensures
            r.wf(),
            r.bound_to(*output),
            old(device).next() <= r.bind_group.id < final(device).next(),
            old(device).next() <= final(device).next() <= old(device).next() + IDS_PER_CALL,
    {
        let layout_id = device.allocate();
        let bind_group_layout = BindGroupLayout {
            id: layout_id,
            entries: vec![
                output.as_storage_entry(0, ShaderStage::Fragment, WgpuView::Albedo, true),
                output.as_storage_entry(1, ShaderStage::Fragment, WgpuView::Radiance, true),
                output.as_storage_entry(2, ShaderStage::Fragment, WgpuView::Ssao, true),
            ],
        };
        let pipeline_id = device.allocate();
        let pipeline = RenderPipeline {
            id: pipeline_id,
            layouts: vec![layout_id],
            vertex: Shader::QuadVertex,
            fragment: Shader::DeferredBlitFragment,
            target: WgpuOutput::OUTPUT_FORMAT,
        };
        assert(pipeline.layouts@ == seq![layout_id]);
        assert(bind_group_layout.entries@ == composite_layout_entries());
        let bind_group = Self::create_bind_group(device, layout_id, output);
        BlitPass { bind_group_layout, bind_group, pipeline }
    }

    /// Rebuilds the binding set against the current buffers of `output`.
    pub fn update_bind_groups(&mut self, device: &mut Device, output: &WgpuOutput)
        requires
            old(self).wf(),
            old(device).can_allocate(1),
        ensures
            final(self).wf(),
            final(self).bound_to(*output),
            final(self).same_objects(*old(self)),
            final(self).bind_group.id == old(device).next(),
            final(device).next() == old(device).next() + 1,
    {
        self.bind_group = Self::create_bind_group(device, self.bind_group_layout.id, output);
    }

    /// Whether the binding set reads the current buffers of `output`.
    pub fn is_bound_to(&self, output: &WgpuOutput) -> (r: bool)
        ensures
            r == self.bound_to(*output),
    {
        let entries = &self.bind_group.entries;
        let albedo = output.as_binding(0, WgpuView::Albedo);
        let radiance = output.as_binding(1, WgpuView::Radiance);
        let ssao = output.as_binding(2, WgpuView::Ssao);
        let r = self.bind_group.layout == self.bind_group_layout.id && entries.len() == 3
            && entries[0] == albedo && entries[1] == radiance && entries[2] == ssao;
        proof {
            if r {
                assert(entries@ =~= seq![albedo, radiance, ssao]);
            }
        }
        r
    }

    /// The command that `render` records.
    pub open spec fn render_command(self, target: u64) -> Command {
        Command::Draw {
            target,
            pipeline: self.pipeline.id,
            bind_group: self.bind_group.id,
            vertices: 6,
            instances: 1,
        }
    }

    /// Records one render pass compositing the buffers of `output` onto the
    /// display target `target`. The binding set must be current: after a
    /// resize of `output`, `update_bind_groups` has to run first.
    pub fn render(&self, encoder: &mut CommandEncoder, target: u64, output: &WgpuOutput)
        requires
            self.bound_to(*output),
        ensures
            final(encoder)@ == old(encoder)@.push(self.render_command(target)),
    {
        encoder.record(
            Command::Draw {
                target,
                pipeline: self.pipeline.id,
                bind_group: self.bind_group.id,
                vertices: 6,
                instances: 1,
            },
        );
    }

    /// After the buffer set is resized, binding sets built for the old
    /// buffers are stale: they do not refer to the new buffers until
    /// `update_bind_groups` runs.
    pub proof fn lemma_stale_after_resize(
        self,
        before: WgpuOutput,
        after: WgpuOutput,
        width: u32,
        height: u32,
        lo: nat,
        hi: nat,
    )
        requires
            self.bound_to(before),
            WgpuOutput::resized(before, after, width, height, lo, hi),
        ensures
            !self.bound_to(after),
    {
        assert(before.texture_of(WgpuView::Albedo).id < lo);
        assert(lo <= after.texture_of(WgpuView::Albedo).id);
        if self.bound_to(after) {
            assert(self.bind_group.entries@[0] == before.view_entry(0, WgpuView::Albedo));
            assert(self.bind_group.entries@[0] == after.view_entry(0, WgpuView::Albedo));
        }
    }
}

} // verus!
