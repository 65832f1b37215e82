use vstd::prelude::*;

verus! {

/// Pixel formats of the frame's textures.
#[derive(Debug, Clone, Copy, PartialEq, Eq, Structural)]
pub enum TextureFormat {
    /// 8-bit BGRA, gamma encoded.
    Bgra8UnormSrgb,
    /// 16-bit float per channel, RGBA.
    Rgba16Float,
    /// 16-bit float, one channel.
    R16Float,
    /// 32-bit float depth.
    Depth32Float,
}

/// Which aspect of a texture a view exposes.
#[derive(Debug, Clone, Copy, PartialEq, Eq, Structural)]
pub enum TextureAspect {
    All,
    DepthOnly,
}

/// How a texture may be used.
#[derive(Debug, Clone, Copy, PartialEq, Eq, Structural)]
pub struct TextureUsage {
    pub render_attachment: bool,
    pub sampled: bool,
    pub storage: bool,
}

/// The shape of a 2D texture with one mip level and one sample.
#[derive(Debug, Clone, Copy, PartialEq, Eq, Structural)]
pub struct TextureDescriptor {
    pub width: u32,
    pub height: u32,
    pub mip_level_count: u32,
    pub sample_count: u32,
    pub format: TextureFormat,
    pub usage: TextureUsage,
}

/// A texture together with the one view through which it is bound.
///
/// The view shares the texture's identity.
#[derive(Debug, Clone, Copy, PartialEq, Eq, Structural)]
pub struct Texture {
    pub id: u64,
    pub desc: TextureDescriptor,
    pub view_format: TextureFormat,
    pub aspect: TextureAspect,
}

/// The shader stage that sees a binding.
#[derive(Debug, Clone, Copy, PartialEq, Eq, Structural)]
pub enum ShaderStage {
    Fragment,
    Compute,
}

/// The kind of resource a layout slot expects.
#[derive(Debug, Clone, Copy, PartialEq, Eq, Structural)]
pub enum BindingType {
    /// A float texture read through a sampler; `array` for a 2D array.
    Texture { filterable: bool, array: bool },
    /// A storage image of the given format.
    StorageTexture { format: TextureFormat, read_only: bool },
    Sampler { filtering: bool },
    /// A uniform buffer; a minimum size of zero means none is asked.
    UniformBuffer { min_binding_size: u64 },
    StorageBuffer { read_only: bool },
}

/// One slot of a binding layout.
#[derive(Debug, Clone, Copy, PartialEq, Eq, Structural)]
pub struct BindGroupLayoutEntry {
    pub binding: u32,
    pub visibility: ShaderStage,
    pub ty: BindingType,
}

/// The shape of a binding set.
#[derive(Debug, Clone)]
pub struct BindGroupLayout {
    pub id: u64,
    pub entries: Vec<BindGroupLayoutEntry>,
}

/// What a slot of a binding set refers to, by identity.
#[derive(Debug, Clone, Copy, PartialEq, Eq, Structural)]
pub enum BindingResource {
    TextureView(u64),
    Sampler(u64),
    Buffer(u64),
}

/// One slot of a binding set.
#[derive(Debug, Clone, Copy, PartialEq, Eq, Structural)]
pub struct BindGroupEntry {
    pub binding: u32,
    pub resource: BindingResource,
}

/// An immutable snapshot binding a pass's slots to concrete objects.
#[derive(Debug, Clone)]
pub struct BindGroup {
    pub id: u64,
    pub layout: u64,
    pub entries: Vec<BindGroupEntry>,
}

/// The filtering a sampler applies.
#[derive(Debug, Clone, Copy, PartialEq, Eq, Structural)]
pub enum SamplerKind {
    /// Nearest filtering with coordinates clamped to the edge.
    NearestClamp,
    /// The sampler that shadow maps are read with.
    Shadow,
}

#[derive(Debug, Clone, Copy, PartialEq, Eq, Structural)]
pub struct Sampler {
    pub id: u64,
    pub kind: SamplerKind,
}

/// The precompiled shader programs that the passes run.
#[derive(Debug, Clone, Copy, PartialEq, Eq, Structural)]
pub enum Shader {
    QuadVertex,
    QuadFragment,
    DeferredBlitFragment,
    Ssao,
    SsaoFilter,
    Lighting,
}

/// A full-screen pipeline: triangle list, no culling, no depth, one color
/// target written with blending set to replace.
#[derive(Debug, Clone)]
pub struct RenderPipeline {
    pub id: u64,
    pub layouts: Vec<u64>,
    pub vertex: Shader,
    pub fragment: Shader,
    pub target: TextureFormat,
}

#[derive(Debug, Clone)]
pub struct ComputePipeline {
    pub id: u64,
    pub layouts: Vec<u64>,
    pub shader: Shader,
}

#[derive(Debug, Clone, Copy, PartialEq, Eq, Structural)]
pub struct BufferUsage {
    pub uniform: bool,
    pub storage: bool,
    pub copy_src: bool,
    pub copy_dst: bool,
}

#[derive(Debug, Clone, Copy, PartialEq, Eq, Structural)]
pub struct Buffer {
    pub id: u64,
    pub size: u64,
    pub usage: BufferUsage,
}

/// The axis along which one blur step samples.
#[derive(Debug, Clone, Copy, PartialEq, Eq, Structural)]
pub struct FilterDirection {
    pub x: u32,
    pub y: u32,
}

/// The horizontal axis, `(1, 0)`.
pub open spec fn horizontal() -> FilterDirection {
    FilterDirection { x: 1, y: 0 }
}

/// The vertical axis, `(0, 1)`.
pub open spec fn vertical() -> FilterDirection {
    FilterDirection { x: 0, y: 1 }
}

/// A small buffer created holding a filter direction.
#[derive(Debug, Clone, Copy, PartialEq, Eq, Structural)]
pub struct DirectionBuffer {
    pub buffer: Buffer,
    pub direction: FilterDirection,
}

/// What happens to an attachment when a render pass begins: clear to black
/// (to the far plane for depth), or keep its content.
#[derive(Debug, Clone, Copy, PartialEq, Eq, Structural)]
pub enum LoadOp {
    Clear,
    Load,
}

#[derive(Debug, Clone, Copy, PartialEq, Eq, Structural)]
pub struct ColorAttachment {
    pub view: u64,
    pub load: LoadOp,
    pub store: bool,
}

#[derive(Debug, Clone, Copy, PartialEq, Eq, Structural)]
pub struct DepthAttachment {
    pub view: u64,
    pub depth_load: LoadOp,
    pub depth_store: bool,
}

/// One recorded GPU operation.
#[derive(Debug, Clone, Copy, PartialEq, Eq, Structural)]
pub enum Command {
    /// Copy `size` bytes from the start of one buffer to the start of another.
    CopyBufferToBuffer { source: u64, destination: u64, size: u64 },
    /// One compute pass: a pipeline, the binding sets at slots 0, 1 and 2,
    /// and the workgroup grid.
    Dispatch {
        pipeline: u64,
        group0: u64,
        group1: Option<u64>,
        group2: Option<u64>,
        x: u32,
        y: u32,
        z: u32,
    },
    /// One render pass that clears `target` to black and draws a
    /// full-screen quad with no index buffer.
    Draw { target: u64, pipeline: u64, bind_group: u64, vertices: u32, instances: u32 },
}

/// A linear stream of recorded GPU operations.
pub struct CommandEncoder {
    commands: Vec<Command>,
}

impl View for CommandEncoder {
    type V = Seq<Command>;

    closed spec fn view(&self) -> Seq<Command> {
        self.commands@
    }
}

impl CommandEncoder {
    pub fn new() -> (r: CommandEncoder)
        ensures
            r@ == Seq::<Command>::empty(),
    {
        CommandEncoder { commands: Vec::new() }
    }

    /// Appends one operation.
    pub fn record(&mut self, c: Command)
        ensures
            final(self)@ == old(self)@.push(c),
    {
        self.commands.push(c);
    }

    pub fn len(&self) -> (r: usize)
        ensures
            r == self@.len(),
    {
        self.commands.len()
    }

    pub fn command(&self, i: usize) -> (r: Command)
        requires
            i < self@.len(),
        ensures
            r == self@[i as int],
    {
        self.commands[i]
    }

    /// The recorded operations, in order.
    pub fn finish(self) -> (r: Vec<Command>)
        ensures
            r@ == self@,
    {
        self.commands
    }
}

/// Hands out the identities of GPU objects, each one once.
pub struct Device {
    next_id: u64,
}

/// How many identities one constructor or resize may take at most.
pub const IDS_PER_CALL: u64 = 64;

impl Device {
    /// The identity that the next object receives.
    pub closed spec fn next(&self) -> nat {
        self.next_id as nat
    }

    /// Whether `n` more identities can be handed out.
    pub open spec fn can_allocate(&self, n: nat) -> bool {
        self.next() + n <= u64::MAX
    }

    pub fn new() -> (r: Device)
        ensures
            r.next() == 0,
    {
        Device { next_id: 0 }
    }

    /// The identity that the next object receives.
    pub fn next_id(&self) -> (r: u64)
        ensures
            r == self.next(),
    {
        self.next_id
    }

    /// How many identities are left.
    pub fn remaining(&self) -> (r: u64)
        ensures
            r == u64::MAX - self.next(),
    {
        u64::MAX - self.next_id
    }

    /// A fresh identity, above every one handed out before.
    pub fn allocate(&mut self) -> (id: u64)
        requires
            old(self).can_allocate(1),
        ensures
            id == old(self).next(),
            final(self).next() == old(self).next() + 1,
    {
        let id = self.next_id;
        self.next_id = self.next_id + 1;
        id
    }
}

} // verus!
