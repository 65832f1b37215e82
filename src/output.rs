use vstd::prelude::*;

use crate::gpu::{
    BindGroup, BindGroupEntry, BindGroupLayout, BindGroupLayoutEntry, BindingResource,
    BindingType, ColorAttachment, Command, CommandEncoder, DepthAttachment, Device, LoadOp,
    RenderPipeline, Sampler, SamplerKind, Shader, ShaderStage, Texture, TextureAspect,
    TextureDescriptor, TextureFormat, TextureUsage, IDS_PER_CALL,
};
use crate::view::{view_of_ordinal, WgpuView};

verus! {

/// The format of the buffer that a role names, which is also the format
/// under which it is bound as a storage image.
pub open spec fn format_of(v: WgpuView) -> TextureFormat {
    match v {
        WgpuView::Output => TextureFormat::Bgra8UnormSrgb,
        WgpuView::Ssao | WgpuView::FilteredSsao => TextureFormat::R16Float,
        _ => TextureFormat::Rgba16Float,
    }
}

/// Usage of the output and intermediate buffers: render target and sampled.
pub open spec fn output_usage() -> TextureUsage {
    TextureUsage { render_attachment: true, sampled: true, storage: false }
}

/// Usage of the storage-capable buffers: render target, sampled and read-write storage.
pub open spec fn storage_usage() -> TextureUsage {
    TextureUsage { render_attachment: true, sampled: true, storage: true }
}

/// Usage of the depth buffer: render target only.
pub open spec fn depth_usage() -> TextureUsage {
    TextureUsage { render_attachment: true, sampled: false, storage: false }
}

/// The usage of the buffer that a role names.
pub open spec fn usage_of(v: WgpuView) -> TextureUsage {
    if v == WgpuView::Output {
        output_usage()
    } else {
        storage_usage()
    }
}

/// A 2D texture of one mip level and one sample, with the given size,
/// format and usage, viewed in its own format.
pub open spec fn shaped(
    t: Texture,
    width: u32,
    height: u32,
    format: TextureFormat,
    usage: TextureUsage,
    aspect: TextureAspect,
) -> bool {
    &&& t.desc == TextureDescriptor {
        width,
        height,
        mip_level_count: 1,
        sample_count: 1,
        format,
        usage,
    }
    &&& t.view_format == format
    &&& t.aspect == aspect
}

/// The slots of both debug blit layouts: a float texture and a sampler,
/// neither filtering, seen by the fragment stage.
pub open spec fn blit_layout_entries() -> Seq<BindGroupLayoutEntry> {
    seq![
        BindGroupLayoutEntry {
            binding: 0,
            visibility: ShaderStage::Fragment,
            ty: BindingType::Texture { filterable: false, array: false },
        },
        BindGroupLayoutEntry {
            binding: 1,
            visibility: ShaderStage::Fragment,
            ty: BindingType::Sampler { filtering: false },
        },
    ]
}

/// Owns every image buffer of a frame, the sampler and the debug binding sets
/// through which each buffer can be shown.
#[derive(Debug)]
pub struct WgpuOutput {
    pub width: u32,
    pub height: u32,
    pub blit_output_layout: BindGroupLayout,
    pub blit_debug_layout: BindGroupLayout,
    pub blit_pipeline: RenderPipeline,
    pub blit_debug_pipeline: RenderPipeline,
    /// One binding set per role, in ordinal order.
    pub debug_bind_groups: Vec<BindGroup>,
    pub output_sampler: Sampler,
    pub output_texture: Texture,
    pub depth_texture: Texture,
    pub albedo_texture: Texture,
    pub normal_texture: Texture,
    pub world_pos_texture: Texture,
    pub radiance_texture: Texture,
    pub screen_space_texture: Texture,
    pub intermediate_texture: Texture,
    pub ssao_output: Texture,
    pub ssao_filtered_output: Texture,
    pub mat_param_texture: Texture,
}

impl WgpuOutput {
    pub const OUTPUT_FORMAT: TextureFormat = TextureFormat::Bgra8UnormSrgb;
    pub const STORAGE_FORMAT: TextureFormat = TextureFormat::Rgba16Float;
    pub const SSAO_FORMAT: TextureFormat = TextureFormat::R16Float;
    pub const DEPTH_FORMAT: TextureFormat = TextureFormat::Depth32Float;
    pub const MAT_PARAM_FORMAT: TextureFormat = TextureFormat::Rgba16Float;

    /// The buffer that a role names.
    pub open spec fn texture_of(self, v: WgpuView) -> Texture {
        match v {
            WgpuView::Output => self.output_texture,
            WgpuView::Albedo => self.albedo_texture,
            WgpuView::Normal => self.normal_texture,
            WgpuView::GBuffer => self.world_pos_texture,
            WgpuView::Radiance => self.radiance_texture,
            WgpuView::ScreenSpace => self.screen_space_texture,
            WgpuView::Ssao => self.ssao_output,
            WgpuView::FilteredSsao => self.ssao_filtered_output,
            WgpuView::MatParams => self.mat_param_texture,
        }
    }

    /// A binding-set slot that refers to the view of a role's buffer.
    pub open spec fn view_entry(self, binding: u32, v: WgpuView) -> BindGroupEntry {
        BindGroupEntry { binding, resource: BindingResource::TextureView(self.texture_of(v).id) }
    }

    /// The debug binding set of ordinal `i`: the plain layout for the output,
    /// the storage-capable one for every other role, reading that role's
    /// buffer through the output sampler.
    pub open spec fn debug_group_ok(self, i: int, g: BindGroup) -> bool {
        &&& g.layout == (if i == 0 {
            self.blit_output_layout.id
        } else {
            self.blit_debug_layout.id
        })
        &&& g.entries@ == seq![
            self.view_entry(0, view_of_ordinal(i)),
            BindGroupEntry { binding: 1, resource: BindingResource::Sampler(self.output_sampler.id) },
        ]
    }

    /// Every buffer has the current resolution and the format, usage and
    /// aspect of its role.
    pub open spec fn buffers_shaped(self) -> bool {
        &&& forall|v: WgpuView|
            #![trigger self.texture_of(v)]
            shaped(
                self.texture_of(v),
                self.width,
                self.height,
                format_of(v),
                usage_of(v),
                TextureAspect::All,
            )
        &&& shaped(
            self.depth_texture,
            self.width,
            self.height,
            TextureFormat::Depth32Float,
            depth_usage(),
            TextureAspect::DepthOnly,
        )
        &&& shaped(
            self.intermediate_texture,
            self.width,
            self.height,
            TextureFormat::Bgra8UnormSrgb,
            output_usage(),
            TextureAspect::All,
        )
    }

    /// The two blit pipelines, their layouts and the sampler.
    pub open spec fn pipelines_ok(self) -> bool {
        &&& self.output_sampler.kind == SamplerKind::NearestClamp
        &&& self.blit_output_layout.entries@ == blit_layout_entries()
        &&& self.blit_debug_layout.entries@ == blit_layout_entries()
        &&& self.blit_pipeline.layouts@ == seq![self.blit_output_layout.id]
        &&& self.blit_pipeline.vertex == Shader::QuadVertex
        &&& self.blit_pipeline.fragment == Shader::QuadFragment
        &&& self.blit_pipeline.target == TextureFormat::Bgra8UnormSrgb
        &&& self.blit_debug_pipeline.layouts@ == seq![self.blit_debug_layout.id]
        &&& self.blit_debug_pipeline.vertex == Shader::QuadVertex
        &&& self.blit_debug_pipeline.fragment == Shader::QuadFragment
        &&& self.blit_debug_pipeline.target == TextureFormat::Bgra8UnormSrgb
        &&& self.blit_output_layout.id != self.blit_debug_layout.id
        &&& self.blit_pipeline.id != self.blit_debug_pipeline.id
    }

    /// One debug binding set per role, each bound to the current buffers.
    pub open spec fn debug_groups_bound(self) -> bool {
        &&& self.debug_bind_groups@.len() == WgpuView::COUNT
        &&& forall|i: int|
            0 <= i < WgpuView::COUNT ==> #[trigger] self.debug_group_ok(
                i,
                self.debug_bind_groups@[i],
            )
    }

    /// Well-formedness: one distinct buffer per role plus the depth and
    /// intermediate buffers, all shaped; pipelines in place; debug binding
    /// sets current.
    pub open spec fn wf(self) -> bool {
        &&& self.buffers_shaped()
        &&& self.buffers_distinct()
        &&& self.pipelines_ok()
        &&& self.debug_groups_bound()
    }

    /// The identities of all buffers and debug binding sets lie in `[lo, hi)`.
    pub open spec fn buffers_within(self, lo: nat, hi: nat) -> bool {
        &&& forall|v: WgpuView|
            #![trigger self.texture_of(v)]
            lo <= self.texture_of(v).id < hi
        &&& lo <= self.depth_texture.id < hi
        &&& lo <= self.intermediate_texture.id < hi
        &&& forall|i: int|
            0 <= i < self.debug_bind_groups@.len() ==> lo <= #[trigger] self.debug_bind_groups@[i].id
                < hi
    }

    /// No two of the eleven buffers share an identity: the nine role
    /// buffers, the depth buffer and the intermediate buffer.
    pub open spec fn buffers_distinct(self) -> bool {
        &&& forall|a: WgpuView, b: WgpuView|
            #![trigger self.texture_of(a), self.texture_of(b)]
            a != b ==> self.texture_of(a).id != self.texture_of(b).id
        &&& forall|v: WgpuView|
            #![trigger self.texture_of(v)]
            self.texture_of(v).id != self.depth_texture.id && self.texture_of(v).id
                != self.intermediate_texture.id
        &&& self.depth_texture.id != self.intermediate_texture.id
    }

    /// Layouts, pipelines and sampler of `self` are those of `other`.
    pub open spec fn same_pipelines(self, other: WgpuOutput) -> bool {
        &&& self.output_sampler == other.output_sampler
        &&& self.blit_output_layout.id == other.blit_output_layout.id
        &&& self.blit_debug_layout.id == other.blit_debug_layout.id
        &&& self.blit_pipeline.id == other.blit_pipeline.id
        &&& self.blit_debug_pipeline.id == other.blit_debug_pipeline.id
    }

    /// What a resize to `width × height` on a device whose counter stood at
    /// `lo` leaves: `before` was allocated below `lo`; `after` is a
    /// well-formed set at the new resolution whose buffers and debug binding
    /// sets were all allocated in `[lo, hi)`, with the pipelines kept.
    pub open spec fn resized(
        before: WgpuOutput,
        after: WgpuOutput,
        width: u32,
        height: u32,
        lo: nat,
        hi: nat,
    ) -> bool {
        &&& before.buffers_within(0, lo)
        &&& after.wf()
        &&& after.width == width
        &&& after.height == height
        &&& after.buffers_within(lo, hi)
        &&& after.same_pipelines(before)
    }

    fn layout_list(layout: u64) -> (r: Vec<u64>)
        ensures
            r@ == seq![layout],
    {
        let mut r: Vec<u64> = Vec::new();
        r.push(layout);
        r
    }

    fn blit_entries() -> (r: Vec<BindGroupLayoutEntry>)
        ensures
            r@ == blit_layout_entries(),
    {
        vec![
            BindGroupLayoutEntry {
                binding: 0,
                visibility: ShaderStage::Fragment,
                ty: BindingType::Texture { filterable: false, array: false },
            },
            BindGroupLayoutEntry {
                binding: 1,
                visibility: ShaderStage::Fragment,
                ty: BindingType::Sampler { filtering: false },
            },
        ]
    }

    /// A render-target, sampled texture of the given format and size.
    fn create_output_texture(
        device: &mut Device,
        format: TextureFormat,
        width: u32,
        height: u32,
    ) -> (r: Texture)
        requires
            old(device).can_allocate(1),
        ensures
            r.id == old(device).next(),
            final(device).next() == old(device).next() + 1,
            shaped(r, width, height, format, output_usage(), TextureAspect::All),
    {
        let id = device.allocate();
        Texture {
            id,
            desc: TextureDescriptor {
                width,
                height,
                mip_level_count: 1,
                sample_count: 1,
                format,
                usage: TextureUsage { render_attachment: true, sampled: true, storage: false },
            },
            view_format: format,
            aspect: TextureAspect::All,
        }
    }

    /// A render-target, sampled and storage texture of the given format and size.
    fn create_texture(device: &mut Device, format: TextureFormat, width: u32, height: u32) -> (r:
        Texture)
        requires
            old(device).can_allocate(1),
        ensures
            r.id == old(device).next(),
            final(device).next() == old(device).next() + 1,
            shaped(r, width, height, format, storage_usage(), TextureAspect::All),
    {
        let id = device.allocate();
        Texture {
            id,
            desc: TextureDescriptor {
                width,
                height,
                mip_level_count: 1,
                sample_count: 1,
                format,
                usage: TextureUsage { render_attachment: true, sampled: true, storage: true },
            },
            view_format: format,
            aspect: TextureAspect::All,
        }
    }

    /// A render-target depth texture, viewed through its depth aspect.
    fn create_depth_texture(
        device: &mut Device,
        format: TextureFormat,
        width: u32,
        height: u32,
    ) -> (r: Texture)
        requires
            old(device).can_allocate(1),
        ensures
            r.id == old(device).next(),
            final(device).next() == old(device).next() + 1,
            shaped(r, width, height, format, depth_usage(), TextureAspect::DepthOnly),
    {
        let id = device.allocate();
        Texture {
            id,
            desc: TextureDescriptor {
                width,
                height,
                mip_level_count: 1,
                sample_count: 1,
                format,
                usage: TextureUsage { render_attachment: true, sampled: false, storage: false },
            },
            view_format: format,
            aspect: TextureAspect::DepthOnly,
        }
    }

    /// One debug binding set per role, bound to the current buffers.
    fn create_debug_bind_groups(&self, device: &mut Device) -> (r: Vec<BindGroup>)
        requires
            old(device).can_allocate(WgpuView::COUNT as nat),
        ensures
            final(device).next() == old(device).next() + WgpuView::COUNT,
            r@.len() == WgpuView::COUNT,
            forall|i: int| 0 <= i < WgpuView::COUNT ==> #[trigger] self.debug_group_ok(i, r@[i]),
            forall|i: int|
                0 <= i < r@.len() ==> old(device).next() <= #[trigger] r@[i].id
                    < final(device).next(),
    {
        let ghost start = device.next();
        let mut groups: Vec<BindGroup> = Vec::new();
        let mut i: usize = 0;
        while i < WgpuView::COUNT
            invariant
                0 <= i <= WgpuView::COUNT,
                device.next() == start + i,
                start + WgpuView::COUNT <= u64::MAX,
                groups@.len() == i,
                forall|j: int| 0 <= j < i ==> #[trigger] self.debug_group_ok(j, groups@[j]),
                forall|j: int| 0 <= j < i ==> start <= #[trigger] groups@[j].id < device.next(),
            decreases WgpuView::COUNT - i,
        {
            let view = WgpuView::from_index(i);
            let layout = if i == 0 {
                self.blit_output_layout.id
            } else {
                self.blit_debug_layout.id
            };
            let entries = vec![
                self.as_binding(0, view),
                BindGroupEntry { binding: 1, resource: BindingResource::Sampler(self.output_sampler.id) },
            ];
            let id = device.allocate();
            groups.push(BindGroup { id, layout, entries });
            i = i + 1;
        }
        groups
    }

    /// Allocates every buffer at `width × height`, the sampler, the two blit
    /// pipelines and one debug binding set per role.
    pub fn new(device: &mut Device, width: u32, height: u32) -> (r: Self)
        requires
            old(device).can_allocate(IDS_PER_CALL as nat),
        ensures
            r.wf(),
            r.width == width,
            r.height == height,
            r.buffers_within(old(device).next(), final(device).next()),
            old(device).next() <= final(device).next() <= old(device).next() + IDS_PER_CALL,
    {
        let sampler_id = device.allocate();
        let output_sampler = Sampler { id: sampler_id, kind: SamplerKind::NearestClamp };
        let output_layout_id = device.allocate();
        let blit_output_layout = BindGroupLayout { id: output_layout_id, entries: Self::blit_entries() };
        let debug_layout_id = device.allocate();
        let blit_debug_layout = BindGroupLayout { id: debug_layout_id, entries: Self::blit_entries() };
        let blit_pipeline_id = device.allocate();
        let blit_pipeline = RenderPipeline {
            id: blit_pipeline_id,
            layouts: Self::layout_list(output_layout_id),
            vertex: Shader::QuadVertex,
            fragment: Shader::QuadFragment,
            target: Self::OUTPUT_FORMAT,
        };
        let blit_debug_pipeline_id = device.allocate();
        let blit_debug_pipeline = RenderPipeline {
            id: blit_debug_pipeline_id,
            layouts: Self::layout_list(debug_layout_id),
            vertex: Shader::QuadVertex,
            fragment: Shader::QuadFragment,
            target: Self::OUTPUT_FORMAT,
        };
        let output_texture = Self::create_output_texture(device, Self::OUTPUT_FORMAT, width, height);
        let depth_texture = Self::create_depth_texture(device, Self::DEPTH_FORMAT, width, height);
        let albedo_texture = Self::create_texture(device, Self::STORAGE_FORMAT, width, height);
        let normal_texture = Self::create_texture(device, Self::STORAGE_FORMAT, width, height);
        let world_pos_texture = Self::create_texture(device, Self::STORAGE_FORMAT, width, height);
        let radiance_texture = Self::create_texture(device, Self::STORAGE_FORMAT, width, height);
        let screen_space_texture = Self::create_texture(
            device,
            Self::STORAGE_FORMAT,
            width,
            height,
        );
        let intermediate_texture = Self::create_output_texture(
            device,
            Self::OUTPUT_FORMAT,
            width,
            height,
        );
        let ssao_output = Self::create_texture(device, Self::SSAO_FORMAT, width, height);
        let ssao_filtered_output = Self::create_texture(device, Self::SSAO_FORMAT, width, height);
        let mat_param_texture = Self::create_texture(device, Self::MAT_PARAM_FORMAT, width, height);
        let mut out = WgpuOutput {
            width,
            height,
            blit_output_layout,
            blit_debug_layout,
            blit_pipeline,
            blit_debug_pipeline,
            debug_bind_groups: Vec::new(),
            output_sampler,
            output_texture,
            depth_texture,
            albedo_texture,
            normal_texture,
            world_pos_texture,
            radiance_texture,
            screen_space_texture,
            intermediate_texture,
            ssao_output,
            ssao_filtered_output,
            mat_param_texture,
        };
        let groups = out.create_debug_bind_groups(device);
        let ghost before = out;
        out.debug_bind_groups = groups;
        assert forall|i: int| 0 <= i < WgpuView::COUNT implies #[trigger] out.debug_group_ok(
            i,
            out.debug_bind_groups@[i],
        ) by {
            assert(before.debug_group_ok(i, groups@[i]));
        }
        out
    }

    /// Drops every buffer and debug binding set and allocates them anew at
    /// `width × height`, also when the resolution is unchanged.
    ///
    /// Binding sets of passes that referred to the old buffers are stale
    /// until each pass rebuilds them.
    pub fn resize(&mut self, device: &mut Device, width: u32, height: u32)
        requires
            old(self).wf(),
            old(self).buffers_within(0, old(device).next()),
            old(device).can_allocate(IDS_PER_CALL as nat),
        ensures
            Self::resized(
                *old(self),
                *final(self),
                width,
                height,
                old(device).next(),
                final(device).next(),
            ),
            old(device).next() <= final(device).next() <= old(device).next() + IDS_PER_CALL,
    {
        self.width = width;
        self.height = height;
        self.output_texture = Self::create_output_texture(device, Self::OUTPUT_FORMAT, width, height);
        self.depth_texture = Self::create_depth_texture(device, Self::DEPTH_FORMAT, width, height);
        self.albedo_texture = Self::create_texture(device, Self::STORAGE_FORMAT, width, height);
        self.normal_texture = Self::create_texture(device, Self::STORAGE_FORMAT, width, height);
        self.world_pos_texture = Self::create_texture(device, Self::STORAGE_FORMAT, width, height);
        self.radiance_texture = Self::create_texture(device, Self::STORAGE_FORMAT, width, height);
        self.screen_space_texture = Self::create_texture(
            device,
            Self::STORAGE_FORMAT,
            width,
            height,
        );
        self.intermediate_texture = Self::create_output_texture(
            device,
            Self::OUTPUT_FORMAT,
            width,
            height,
        );
        self.ssao_output = Self::create_texture(device, Self::SSAO_FORMAT, width, height);
        self.ssao_filtered_output = Self::create_texture(device, Self::SSAO_FORMAT, width, height);
        self.mat_param_texture = Self::create_texture(device, Self::MAT_PARAM_FORMAT, width, height);
        let groups = self.create_debug_bind_groups(device);
        let ghost before = *self;
        self.debug_bind_groups = groups;
        assert forall|i: int| 0 <= i < WgpuView::COUNT implies #[trigger] self.debug_group_ok(
            i,
            self.debug_bind_groups@[i],
        ) by {
            assert(before.debug_group_ok(i, groups@[i]));
        }
    }

    /// The buffer that a role names.
    pub fn view_for(&self, view: WgpuView) -> (r: Texture)
        ensures
            r == self.texture_of(view),
    {
        match view {
            WgpuView::Output => self.output_texture,
            WgpuView::Albedo => self.albedo_texture,
            WgpuView::Normal => self.normal_texture,
            WgpuView::GBuffer => self.world_pos_texture,
            WgpuView::Radiance => self.radiance_texture,
            WgpuView::ScreenSpace => self.screen_space_texture,
            WgpuView::Ssao => self.ssao_output,
            WgpuView::FilteredSsao => self.ssao_filtered_output,
            WgpuView::MatParams => self.mat_param_texture,
        }
    }

    /// A color attachment on a role's buffer, cleared to black and stored.
    pub fn as_descriptor(&self, view: WgpuView) -> (r: ColorAttachment)
        ensures
            r == (ColorAttachment {
                view: self.texture_of(view).id,
                load: LoadOp::Clear,
                store: true,
            }),
    {
        ColorAttachment { view: self.view_for(view).id, load: LoadOp::Clear, store: true }
    }

    /// The depth attachment, cleared to the far plane and stored.
    pub fn as_depth_descriptor(&self) -> (r: DepthAttachment)
        ensures
            r == (DepthAttachment {
                view: self.depth_texture.id,
                depth_load: LoadOp::Clear,
                depth_store: true,
            }),
    {
        DepthAttachment { view: self.depth_texture.id, depth_load: LoadOp::Clear, depth_store: true }
    }

    /// A layout slot for a filterable float 2D texture.
    pub fn as_sampled_entry(&self, binding: usize, visibility: ShaderStage) -> (r:
        BindGroupLayoutEntry)
        requires
            binding <= u32::MAX,
        ensures
            r == (BindGroupLayoutEntry {
                binding: binding as u32,
                visibility,
                ty: BindingType::Texture { filterable: true, array: false },
            }),
    {
        BindGroupLayoutEntry {
            binding: binding as u32,
            visibility,
            ty: BindingType::Texture { filterable: true, array: false },
        }
    }

    /// A layout slot for a role's buffer as a storage image, read-only or
    /// read-write.
    pub fn as_storage_entry(
        &self,
        binding: usize,
        visibility: ShaderStage,
        view: WgpuView,
        readonly: bool,
    ) -> (r: BindGroupLayoutEntry)
        requires
            binding <= u32::MAX,
        ensures
            r == (BindGroupLayoutEntry {
                binding: binding as u32,
                visibility,
                ty: BindingType::StorageTexture { format: format_of(view), read_only: readonly },
            }),
    {
        let format = match view {
            WgpuView::Output => Self::OUTPUT_FORMAT,
            WgpuView::Ssao | WgpuView::FilteredSsao => Self::SSAO_FORMAT,
            _ => Self::STORAGE_FORMAT,
        };
        BindGroupLayoutEntry {
            binding: binding as u32,
            visibility,
            ty: BindingType::StorageTexture { format, read_only: readonly },
        }
    }

    /// A binding-set slot referring to a role's buffer.
    pub fn as_binding(&self, binding: usize, view: WgpuView) -> (r: BindGroupEntry)
        requires
            binding <= u32::MAX,
        ensures
            r == self.view_entry(binding as u32, view),
    {
        BindGroupEntry {
            binding: binding as u32,
            resource: BindingResource::TextureView(self.view_for(view).id),
        }
    }

    /// The command that shows a role's buffer on `target`.
    pub open spec fn blit_debug_command(self, target: u64, view: WgpuView) -> Command {
        Command::Draw {
            target,
            pipeline: if view == WgpuView::Output {
                self.blit_pipeline.id
            } else {
                self.blit_debug_pipeline.id
            },
            bind_group: self.debug_bind_groups@[view.ordinal() as int].id,
            vertices: 6,
            instances: 1,
        }
    }

    /// Records one render pass that copies a role's buffer onto `output`:
    /// the plain pipeline for the output buffer, the debug pipeline for any
    /// other, with that role's debug binding set.
    pub fn blit_debug(&self, output: u64, encoder: &mut CommandEncoder, view: WgpuView)
        requires
            self.wf(),
        ensures
            final(encoder)@ == old(encoder)@.push(self.blit_debug_command(output, view)),
    {
        let pipeline = if view.index() == 0 {
            self.blit_pipeline.id
        } else {
            self.blit_debug_pipeline.id
        };
        let bind_group = self.debug_bind_groups[view.index()].id;
        encoder.record(
            Command::Draw { target: output, pipeline, bind_group, vertices: 6, instances: 1 },
        );
    }

    /// In a well-formed set each role has its own buffer: distinct roles
    /// give distinct binding slots at the same binding, and no role's slot
    /// refers to the depth or the intermediate buffer.
    pub proof fn lemma_one_buffer_per_role(self, binding: u32)
        requires
            self.wf(),
        ensures
            forall|a: WgpuView, b: WgpuView|
                a != b ==> #[trigger] self.view_entry(binding, a).resource != #[trigger] self.view_entry(
                    binding,
                    b,
                ).resource,
            forall|v: WgpuView|
                #[trigger] self.view_entry(binding, v).resource != BindingResource::TextureView(
                    self.depth_texture.id,
                ) && self.view_entry(binding, v).resource != BindingResource::TextureView(
                    self.intermediate_texture.id,
                ),
    {
        assert forall|a: WgpuView, b: WgpuView|
            a != b implies #[trigger] self.view_entry(binding, a).resource
                != #[trigger] self.view_entry(binding, b).resource by {
            assert(self.texture_of(a).id != self.texture_of(b).id);
        }
        assert forall|v: WgpuView|
            #[trigger] self.view_entry(binding, v).resource != BindingResource::TextureView(
                self.depth_texture.id,
            ) && self.view_entry(binding, v).resource != BindingResource::TextureView(
                self.intermediate_texture.id,
            ) by {
            assert(self.texture_of(v).id != self.depth_texture.id);
        }
    }

    /// Resizing to the current resolution still reallocates: every buffer
    /// and every debug binding set is new, each buffer keeps its shape, and
    /// every debug binding set reads the new buffers.
    pub proof fn lemma_null_resize_reallocates(
        before: WgpuOutput,
        after: WgpuOutput,
        lo: nat,
        hi: nat,
    )
        requires
            before.wf(),
            Self::resized(before, after, before.width, before.height, lo, hi),
        ensures
            after.wf(),
            after.width == before.width,
            after.height == before.height,
            forall|v: WgpuView|
                #![trigger after.texture_of(v)]
                after.texture_of(v).id != before.texture_of(v).id && after.texture_of(v).desc
                    == before.texture_of(v).desc,
            after.depth_texture.id != before.depth_texture.id,
            after.depth_texture.desc == before.depth_texture.desc,
            after.intermediate_texture.id != before.intermediate_texture.id,
            after.intermediate_texture.desc == before.intermediate_texture.desc,
            forall|i: int|
                0 <= i < WgpuView::COUNT ==> #[trigger] after.debug_bind_groups@[i].id
                    != before.debug_bind_groups@[i].id,
            forall|i: int, v: WgpuView|
                0 <= i < WgpuView::COUNT ==> #[trigger] after.debug_bind_groups@[i].entries@[0].resource
                    != BindingResource::TextureView(#[trigger] before.texture_of(v).id),
            forall|i: int|
                0 <= i < WgpuView::COUNT ==> #[trigger] after.debug_bind_groups@[i].entries@[0].resource
                    != BindingResource::TextureView(before.depth_texture.id)
                    && after.debug_bind_groups@[i].entries@[0].resource != BindingResource::TextureView(
                    before.intermediate_texture.id,
                ),
    {
        assert forall|v: WgpuView|
            #![trigger after.texture_of(v)]
            after.texture_of(v).id != before.texture_of(v).id && after.texture_of(v).desc
                == before.texture_of(v).desc by {
            assert(before.texture_of(v).id < lo);
            assert(lo <= after.texture_of(v).id);
        }
        assert forall|i: int|
            0 <= i < WgpuView::COUNT implies #[trigger] after.debug_bind_groups@[i].id
                != before.debug_bind_groups@[i].id by {
            assert(before.debug_bind_groups@[i].id < lo);
            assert(lo <= after.debug_bind_groups@[i].id);
        }
        assert forall|i: int, v: WgpuView|
            0 <= i < WgpuView::COUNT implies #[trigger] after.debug_bind_groups@[i].entries@[0].resource
                != BindingResource::TextureView(#[trigger] before.texture_of(v).id) by {
            assert(after.debug_group_ok(i, after.debug_bind_groups@[i]));
            let w = view_of_ordinal(i);
            assert(lo <= after.texture_of(w).id);
            assert(before.texture_of(v).id < lo);
        }
        assert forall|i: int|
            0 <= i < WgpuView::COUNT implies #[trigger] after.debug_bind_groups@[i].entries@[0].resource
                != BindingResource::TextureView(before.depth_texture.id)
                && after.debug_bind_groups@[i].entries@[0].resource != BindingResource::TextureView(
                before.intermediate_texture.id,
            ) by {
            assert(after.debug_group_ok(i, after.debug_bind_groups@[i]));
            let w = view_of_ordinal(i);
            assert(lo <= after.texture_of(w).id);
        }
    }

    /// Whether every buffer and debug binding set of `self` was allocated
    /// before the current counter of `device`, as `resize` needs.
    pub fn allocated_by(&self, device: &Device) -> (r: bool)
        ensures
            r == self.buffers_within(0, device.next()),
    {
        let n = device.next_id();
        let mut ok = self.depth_texture.id < n && self.intermediate_texture.id < n;
        let mut v: usize = 0;
        while v < WgpuView::COUNT
            invariant
                v <= WgpuView::COUNT,
                n == device.next(),
                ok == (self.depth_texture.id < n && self.intermediate_texture.id < n && forall|j: int|
                    0 <= j < v ==> #[trigger] self.texture_of(view_of_ordinal(j)).id < n),
            decreases WgpuView::COUNT - v,
        {
            ok = ok && self.view_for(WgpuView::from_index(v)).id < n;
            v = v + 1;
        }
        let mut i: usize = 0;
        while i < self.debug_bind_groups.len()
            invariant
                i <= self.debug_bind_groups@.len(),
                n == device.next(),
                ok == (self.depth_texture.id < n && self.intermediate_texture.id < n && (forall|j: int|
                    0 <= j < WgpuView::COUNT ==> #[trigger] self.texture_of(view_of_ordinal(j)).id
                        < n) && forall|j: int|
                    0 <= j < i ==> #[trigger] self.debug_bind_groups@[j].id < n),
            decreases self.debug_bind_groups@.len() - i,
        {
            ok = ok && self.debug_bind_groups[i].id < n;
            i = i + 1;
        }
        proof {
            assert forall|w: WgpuView| #[trigger] self.texture_of(w).id < n <== ok by {
                if ok {
                    crate::view::lemma_ordinal_round_trip(w);
                    assert(self.texture_of(view_of_ordinal(w.ordinal() as int)).id < n);
                }
            }
        }
        ok
    }
}

} // verus!
