//! Plain descriptions of what the graphics device is asked to create and to
//! record.
//!
//! The library decides what is created and drawn; the caller owns the device
//! and carries the decisions out. Each type here is one such decision, written
//! in the device's own terms.

use vstd::prelude::*;

verus! {

/// The type of one vertex attribute: one, two or four binary32 components.
#[derive(Clone, Copy, Debug, PartialEq, Eq, Structural)]
pub enum VertexFormat {
    Float,
    Float2,
    Float4,
}

impl VertexFormat {
    /// The number of bytes that an attribute of this format takes.
    pub open spec fn spec_size(self) -> nat {
        match self {
            VertexFormat::Float => 4,
            VertexFormat::Float2 => 8,
            VertexFormat::Float4 => 16,
        }
    }

    /// The number of bytes that an attribute of this format takes.
    pub fn size(self) -> (bytes: u64)
        ensures
            bytes == self.spec_size(),
    {
        match self {
            VertexFormat::Float => 4,
            VertexFormat::Float2 => 8,
            VertexFormat::Float4 => 16,
        }
    }
}

/// Whether a vertex buffer advances once per vertex or once per instance.
#[derive(Clone, Copy, Debug, PartialEq, Eq, Structural)]
pub enum InputStepMode {
    Vertex,
    Instance,
}

/// One attribute of a vertex buffer: where the shader receives it, its type,
/// and its offset in bytes from the start of an element.
#[derive(Clone, Copy, Debug, PartialEq, Eq, Structural)]
pub struct VertexAttributeDescriptor {
    pub shader_location: u32,
    pub format: VertexFormat,
    pub offset: u64,
}

/// The layout of one vertex buffer.
#[derive(Clone, Debug, PartialEq, Eq)]
pub struct VertexBufferDescriptor {
    /// The distance in bytes between two elements.
    pub stride: u64,
    pub step_mode: InputStepMode,
    pub attributes: Vec<VertexAttributeDescriptor>,
}

/// What a `VertexBufferDescriptor` says.
pub struct VertexBufferLayout {
    pub stride: u64,
    pub step_mode: InputStepMode,
    pub attributes: Seq<VertexAttributeDescriptor>,
}

impl View for VertexBufferDescriptor {
    type V = VertexBufferLayout;

    open spec fn view(&self) -> VertexBufferLayout {
        VertexBufferLayout {
            stride: self.stride,
            step_mode: self.step_mode,
            attributes: self.attributes@,
        }
    }
}

/// The offset in bytes of attribute `i` of an element whose attributes have
/// the formats `formats` and lie one after the other without gaps: the sizes
/// of the attributes before it, added up. For `i == formats.len()` that is the
/// size of the element.
pub open spec fn packed_offset(formats: Seq<VertexFormat>, i: int) -> nat
    decreases i,
{
    if i <= 0 {
        0
    } else {
        packed_offset(formats, i - 1) + formats[i - 1].spec_size()
    }
}

/// The layout of a buffer whose elements hold attributes of the formats
/// `formats`, one after the other without gaps, for the shader locations from
/// `first_location` upwards.
pub open spec fn packed_layout(
    first_location: u32,
    step_mode: InputStepMode,
    formats: Seq<VertexFormat>,
) -> VertexBufferLayout {
    VertexBufferLayout {
        stride: packed_offset(formats, formats.len() as int) as u64,
        step_mode,
        attributes: Seq::new(
            formats.len(),
            |i: int|
                VertexAttributeDescriptor {
                    shader_location: (first_location + i) as u32,
                    format: formats[i],
                    offset: packed_offset(formats, i) as u64,
                },
        ),
    }
}

/// No attribute takes more than sixteen bytes.
pub proof fn lemma_packed_offset_bound(formats: Seq<VertexFormat>, i: int)
    requires
        0 <= i <= formats.len(),
    ensures
        packed_offset(formats, i) <= 16 * i,
    decreases i,
{
    if i > 0 {
        lemma_packed_offset_bound(formats, i - 1);
    }
}

impl VertexBufferDescriptor {
    /// Lays attributes of the formats `formats` out one after the other, for
    /// the shader locations from `first_location` upwards.
    pub fn packed(first_location: u32, step_mode: InputStepMode, formats: &[VertexFormat]) -> (layout:
        VertexBufferDescriptor)
        requires
            first_location + formats.len() <= u32::MAX,
        ensures
            layout@ == packed_layout(first_location, step_mode, formats@),
    {
        let mut attributes: Vec<VertexAttributeDescriptor> = Vec::new();
        let mut offset: u64 = 0;
        let mut k: usize = 0;
        while k < formats.len()
            invariant
                k <= formats.len(),
                first_location + formats.len() <= u32::MAX,
                offset == packed_offset(formats@, k as int),
                attributes@ == packed_layout(first_location, step_mode, formats@).attributes.take(
                    k as int,
                ),
            decreases formats.len() - k,
        {
            proof {
                lemma_packed_offset_bound(formats@, k as int);
            }
            attributes.push(
                VertexAttributeDescriptor {
                    shader_location: first_location + k as u32,
                    format: formats[k],
                    offset,
                },
            );
            offset = offset + formats[k].size();
            k = k + 1;
            assert(attributes@ =~= packed_layout(first_location, step_mode, formats@).attributes.take(
                k as int,
            ));
        }
        assert(attributes@ =~= packed_layout(first_location, step_mode, formats@).attributes);
        VertexBufferDescriptor { stride: offset, step_mode, attributes }
    }
}

/// A shader stage.
#[derive(Clone, Copy, Debug, PartialEq, Eq, Structural)]
pub enum ShaderStage {
    Vertex,
    Fragment,
}

/// A compiled shader and the name of its entry point.
#[derive(Clone, Debug, PartialEq, Eq)]
pub struct ProgrammableStage {
    /// The SPIR-V words of the module.
    pub module: Vec<u32>,
    pub entry_point: &'static str,
}

/// What a `ProgrammableStage` says.
pub struct ProgrammableStageView {
    pub module: Seq<u32>,
    pub entry_point: Seq<char>,
}

impl View for ProgrammableStage {
    type V = ProgrammableStageView;

    open spec fn view(&self) -> ProgrammableStageView {
        ProgrammableStageView { module: self.module@, entry_point: self.entry_point@ }
    }
}

/// How the vertices of a draw are assembled into primitives.
#[derive(Clone, Copy, Debug, PartialEq, Eq, Structural)]
pub enum PrimitiveTopology {
    PointList,
    LineList,
    LineStrip,
    TriangleList,
    TriangleStrip,
}

/// The winding of a triangle that faces the viewer.
#[derive(Clone, Copy, Debug, PartialEq, Eq, Structural)]
pub enum FrontFace {
    Ccw,
    Cw,
}

/// Which triangles are discarded by the side they show.
#[derive(Clone, Copy, Debug, PartialEq, Eq, Structural)]
pub enum CullMode {
    Nothing,
    Front,
    Back,
}

/// A weight in a blend equation.
#[derive(Clone, Copy, Debug, PartialEq, Eq, Structural)]
pub enum BlendFactor {
    Zero,
    One,
    SrcAlpha,
    OneMinusSrcAlpha,
}

/// How the weighted source and destination are combined.
#[derive(Clone, Copy, Debug, PartialEq, Eq, Structural)]
pub enum BlendOperation {
    Add,
    Subtract,
    ReverseSubtract,
    Min,
    Max,
}

/// One blend equation: `operation(src_factor * src, dst_factor * dst)`.
#[derive(Clone, Copy, Debug, PartialEq, Eq, Structural)]
pub struct BlendDescriptor {
    pub src_factor: BlendFactor,
    pub dst_factor: BlendFactor,
    pub operation: BlendOperation,
}

/// The channels of a colour target that a draw may write.
#[derive(Clone, Copy, Debug, PartialEq, Eq, Structural)]
pub struct ColorWrite {
    pub red: bool,
    pub green: bool,
    pub blue: bool,
    pub alpha: bool,
}

/// The format of the texels of a target.
#[derive(Clone, Copy, Debug, PartialEq, Eq, Structural)]
pub enum TextureFormat {
    Rgba8Unorm,
    Rgba8UnormSrgb,
    Bgra8Unorm,
    Bgra8UnormSrgb,
}

/// The width of the indices in an index buffer.
#[derive(Clone, Copy, Debug, PartialEq, Eq, Structural)]
pub enum IndexFormat {
    Uint16,
    Uint32,
}

/// The fixed-function state of a render pipeline with one colour target.
#[derive(Clone, Copy, Debug, PartialEq, Eq, Structural)]
pub struct RenderState {
    pub primitive_topology: PrimitiveTopology,
    pub front_face: FrontFace,
    pub cull_mode: CullMode,
    /// The constant added to the depth of each fragment.
    pub depth_bias: i32,
    /// The binary32 encoding of the factor by which the slope of a triangle
    /// adds to the depth of its fragments.
    pub depth_bias_slope_scale: u32,
    /// The binary32 encoding of the largest depth bias of a fragment.
    pub depth_bias_clamp: u32,
    pub format: TextureFormat,
    pub color_blend: BlendDescriptor,
    pub alpha_blend: BlendDescriptor,
    pub write_mask: ColorWrite,
    /// Whether the pipeline tests or writes depth or stencil.
    pub depth_stencil: bool,
    pub index_format: IndexFormat,
    pub sample_count: u32,
    pub sample_mask: u32,
    pub alpha_to_coverage_enabled: bool,
}

/// The binding of a range of a uniform buffer to a slot that shaders read.
#[derive(Clone, Copy, Debug, PartialEq, Eq, Structural)]
pub struct UniformBinding {
    pub binding: u32,
    pub visibility: ShaderStage,
    pub dynamic: bool,
    /// The first byte of the buffer that is bound.
    pub start: u64,
    /// The byte after the last one that is bound.
    pub end: u64,
}

/// What a buffer may be used for.
#[derive(Clone, Copy, Debug, PartialEq, Eq, Structural)]
pub struct BufferUsage {
    pub vertex: bool,
    pub index: bool,
    pub uniform: bool,
    pub copy_src: bool,
    pub copy_dst: bool,
}

/// A buffer to create: its size in bytes, its usage, and the bytes it is
/// filled with at creation. A buffer that is created without contents has
/// `contents` empty.
#[derive(Clone, Debug, PartialEq, Eq)]
pub struct Buffer {
    pub size: u64,
    pub usage: BufferUsage,
    pub contents: Vec<u8>,
}

/// What a `Buffer` says.
pub struct BufferView {
    pub size: u64,
    pub usage: BufferUsage,
    pub contents: Seq<u8>,
}

impl View for Buffer {
    type V = BufferView;

    open spec fn view(&self) -> BufferView {
        BufferView { size: self.size, usage: self.usage, contents: self.contents@ }
    }
}

/// What happens to a target at the start of a render pass.
#[derive(Clone, Copy, Debug, PartialEq, Eq, Structural)]
pub enum LoadOp {
    Clear,
    Load,
}

/// What happens to a target at the end of a render pass.
#[derive(Clone, Copy, Debug, PartialEq, Eq, Structural)]
pub enum StoreOp {
    Clear,
    Store,
}

/// A colour that a target is cleared to.
#[derive(Clone, Copy, Debug, PartialEq, Eq, Structural)]
pub enum Color {
    Transparent,
    Black,
    White,
}

/// The half-open range `start..end`.
#[derive(Clone, Copy, Debug, PartialEq, Eq, Structural)]
pub struct Span {
    pub start: u32,
    pub end: u32,
}

/// One indexed, instanced draw call.
#[derive(Clone, Copy, Debug, PartialEq, Eq, Structural)]
pub struct DrawIndexed {
    pub indices: Span,
    pub base_vertex: i32,
    pub instances: Span,
}

/// One of the buffers of a pipeline.
#[derive(Clone, Copy, Debug, PartialEq, Eq, Structural)]
pub enum BufferSlot {
    /// The uniform buffer.
    Constants,
    /// The vertex buffer of the mesh.
    Vertices,
    /// The index buffer of the mesh.
    Indices,
    /// The instance buffer.
    Instances,
}

/// A buffer as a pass reads it, from `offset` bytes after its start.
#[derive(Clone, Copy, Debug, PartialEq, Eq, Structural)]
pub struct BufferBinding {
    pub buffer: BufferSlot,
    pub offset: u64,
}

/// A copy into a buffer of a pipeline: `contents` is staged in a buffer of
/// its own, made to be copied from, and copied whole to `destination_offset`
/// bytes after the start of `destination`.
#[derive(Clone, Debug, PartialEq, Eq)]
pub struct BufferCopy {
    pub destination: BufferSlot,
    pub destination_offset: u64,
    pub contents: Vec<u8>,
}

/// What a `BufferCopy` says.
pub struct BufferCopyView {
    pub destination: BufferSlot,
    pub destination_offset: u64,
    pub contents: Seq<u8>,
}

impl View for BufferCopy {
    type V = BufferCopyView;

    open spec fn view(&self) -> BufferCopyView {
        BufferCopyView {
            destination: self.destination,
            destination_offset: self.destination_offset,
            contents: self.contents@,
        }
    }
}

/// One render pass on one colour target, with one pipeline and one draw
/// call. The pass sets the pipeline, then the bind group, the vertex buffers
/// and the index buffer, then draws.
#[derive(Clone, Copy, Debug, PartialEq, Eq, Structural)]
pub struct RenderPass {
    pub load_op: LoadOp,
    pub store_op: StoreOp,
    pub clear_color: Color,
    /// The index at which the bind group of the pipeline is set.
    pub bind_group: u32,
    /// The vertex buffer in slot 0.
    pub vertices: BufferBinding,
    /// The vertex buffer in slot 1.
    pub instances: BufferBinding,
    pub indices: BufferBinding,
    pub draw: DrawIndexed,
}

/// Which kind of adapter is preferred where there are several.
#[derive(Clone, Copy, Debug, PartialEq, Eq, Structural)]
pub enum PowerPreference {
    Default,
    LowPower,
    HighPerformance,
}

/// The graphics interfaces that an adapter may come from.
#[derive(Clone, Copy, Debug, PartialEq, Eq, Structural)]
pub struct Backends {
    pub vulkan: bool,
    pub gl: bool,
    pub metal: bool,
    pub dx12: bool,
    pub dx11: bool,
}

/// The adapter to ask for.
#[derive(Clone, Copy, Debug, PartialEq, Eq, Structural)]
pub struct RequestAdapterOptions {
    pub power_preference: PowerPreference,
    pub backends: Backends,
}

/// The device to ask an adapter for.
#[derive(Clone, Copy, Debug, PartialEq, Eq, Structural)]
pub struct DeviceDescriptor {
    pub anisotropic_filtering: bool,
    pub max_bind_groups: u32,
}

/// What a texture of a presentation chain is used for.
#[derive(Clone, Copy, Debug, PartialEq, Eq, Structural)]
pub enum TextureUsage {
    Sampled,
    Storage,
    OutputAttachment,
}

/// When a finished frame is shown.
#[derive(Clone, Copy, Debug, PartialEq, Eq, Structural)]
pub enum PresentMode {
    NoVsync,
    Vsync,
}

/// A presentation chain to create on a surface.
#[derive(Clone, Copy, Debug, PartialEq, Eq, Structural)]
pub struct SwapChainDescriptor {
    pub usage: TextureUsage,
    pub format: TextureFormat,
    pub width: u32,
    pub height: u32,
    pub present_mode: PresentMode,
}

/// The next image of a presentation chain, by its size in physical pixels.
#[derive(Clone, Copy, Debug, PartialEq, Eq, Structural)]
pub struct Frame {
    pub width: u32,
    pub height: u32,
}

} // verus!
