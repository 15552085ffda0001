//! Quads: rectangles with a fill, a border and rounded corners.

use crate::binary32::lemma_rounded_units;
use crate::binary32::ONE;
use crate::binary32::ZERO;
use crate::bytes::bytes_to_words;
use crate::bytes::halves_to_bytes;
use crate::bytes::lemma_words_to_bytes_concat;
use crate::bytes::push_halves;
use crate::bytes::lemma_words_round_trip;
use crate::bytes::push_words;
use crate::bytes::read_word;
use crate::bytes::words_to_bytes;
use crate::device::BlendDescriptor;
use crate::device::BlendFactor;
use crate::device::BlendOperation;
use crate::device::Buffer;
use crate::device::BufferBinding;
use crate::device::BufferCopy;
use crate::device::BufferCopyView;
use crate::device::BufferSlot;
use crate::device::BufferUsage;
use crate::device::BufferView;
use crate::device::Color;
use crate::device::ColorWrite;
use crate::device::CullMode;
use crate::device::DrawIndexed;
use crate::device::FrontFace;
use crate::device::IndexFormat;
use crate::device::InputStepMode;
use crate::device::LoadOp;
use crate::device::PrimitiveTopology;
use crate::device::ProgrammableStage;
use crate::device::ProgrammableStageView;
use crate::device::RenderPass;
use crate::device::RenderState;
use crate::device::ShaderStage;
use crate::device::Span;
use crate::device::StoreOp;
use crate::device::TextureFormat;
use crate::device::UniformBinding;
use crate::device::VertexAttributeDescriptor;
use crate::device::VertexBufferDescriptor;
use crate::device::VertexBufferLayout;
use crate::device::VertexFormat;
use crate::device::packed_layout;
use crate::device::packed_offset;
use crate::rectangle::Rectangle;
use crate::shader::parse;
use crate::shader::shader_error;
use crate::shader::spirv_words;
use crate::shader::ShaderError;
use crate::transformation::entries_bits;
use crate::transformation::identity_entries;
use crate::transformation::Ratio;
use crate::transformation::Transformation;
use vstd::prelude::*;

verus! {

/// The number of quads that the instance buffer holds, and the most that one
/// draw may carry.
pub const MAX_INSTANCES: usize = 100_000;

/// The number of words of one quad in the instance buffer.
pub const QUAD_WORDS: usize = 14;

/// The number of bytes of one quad in the instance buffer.
pub const QUAD_SIZE: usize = 56;

/// The number of bytes of one vertex of the mesh.
pub const VERTEX_SIZE: usize = 8;

/// The number of bytes of the uniforms.
pub const UNIFORMS_SIZE: usize = 68;

/// One corner of the mesh: the binary32 encodings of its `x` and `y`.
#[derive(Clone, Copy, Debug, PartialEq, Eq)]
pub struct Vertex {
    pub position: [u32; 2],
}

/// The words of the corners of the unit square, corner after corner:
/// `(0, 0)`, `(1, 0)`, `(1, 1)`, `(0, 1)`.
pub open spec fn unit_square_words() -> Seq<u32> {
    seq![ZERO, ZERO, ONE, ZERO, ONE, ONE, ZERO, ONE]
}

/// The mesh that every quad is drawn with: the corners of the unit square,
/// which the instance attributes of a quad scale and move.
pub fn quad_verts() -> (mesh: [Vertex; 4])
    ensures
        mesh[0].position@ + mesh[1].position@ + mesh[2].position@ + mesh[3].position@
            == unit_square_words(),
{
    let mesh = [
        Vertex { position: [ZERO, ZERO] },
        Vertex { position: [ONE, ZERO] },
        Vertex { position: [ONE, ONE] },
        Vertex { position: [ZERO, ONE] },
    ];
    assert(mesh[0].position@ + mesh[1].position@ + mesh[2].position@ + mesh[3].position@
        =~= unit_square_words());
    mesh
}

/// The indices of the two triangles of the unit square.
pub const QUAD_INDICES: [u16; 6] = [0, 1, 2, 0, 2, 3];

/// One rectangle. Every field is the binary32 encoding of a number, or an
/// array of such encodings.
#[derive(Clone, Copy, Debug, PartialEq, Eq)]
pub struct Quad {
    /// The top-left corner, `x` then `y`.
    pub position: [u32; 2],
    /// The width, then the height.
    pub scale: [u32; 2],
    /// The fill: red, green, blue, alpha.
    pub color: [u32; 4],
    /// The colour of the border: red, green, blue, alpha.
    pub border_color: [u32; 4],
    pub border_radius: u32,
    pub border_width: u32,
}

impl Quad {
    /// The words of the quad in the order in which the instance buffer holds
    /// them.
    pub open spec fn words(self) -> Seq<u32> {
        self.position@ + self.scale@ + self.color@ + self.border_color@ + seq![
            self.border_radius,
            self.border_width,
        ]
    }

    /// The bytes of the quad in the instance buffer.
    pub open spec fn bytes(self) -> Seq<u8> {
        words_to_bytes(self.words())
    }

    /// The quad that fourteen words spell.
    pub open spec fn from_words(words: Seq<u32>) -> Quad {
        Quad {
            position: [words[0], words[1]],
            scale: [words[2], words[3]],
            color: [words[4], words[5], words[6], words[7]],
            border_color: [words[8], words[9], words[10], words[11]],
            border_radius: words[12],
            border_width: words[13],
        }
    }

    /// Appends the bytes of the quad to `out`.
    pub fn write(&self, out: &mut Vec<u8>)
        ensures
            final(out)@ == old(out)@ + self.bytes(),
    {
        let words: [u32; 14] = [
            self.position[0],
            self.position[1],
            self.scale[0],
            self.scale[1],
            self.color[0],
            self.color[1],
            self.color[2],
            self.color[3],
            self.border_color[0],
            self.border_color[1],
            self.border_color[2],
            self.border_color[3],
            self.border_radius,
            self.border_width,
        ];
        assert(words@ =~= self.words());
        push_words(out, words.as_slice());
    }

    /// Reads record `index` of an instance buffer with the contents `buffer`.
    /// It is there where the buffer holds `index + 1` whole records.
    pub fn read(buffer: &[u8], index: usize) -> (quad: Option<Quad>)
        ensures
            quad == read_back(buffer@, index as int),
    {
        if index >= buffer.len() / QUAD_SIZE {
            return None;
        }
        let first: usize = index * QUAD_WORDS;
        let quad = Quad {
            position: [read_word(buffer, first), read_word(buffer, first + 1)],
            scale: [read_word(buffer, first + 2), read_word(buffer, first + 3)],
            color: [
                read_word(buffer, first + 4),
                read_word(buffer, first + 5),
                read_word(buffer, first + 6),
                read_word(buffer, first + 7),
            ],
            border_color: [
                read_word(buffer, first + 8),
                read_word(buffer, first + 9),
                read_word(buffer, first + 10),
                read_word(buffer, first + 11),
            ],
            border_radius: read_word(buffer, first + 12),
            border_width: read_word(buffer, first + 13),
        };
        proof {
            let words = bytes_to_words(buffer@).subrange(14 * index, 14 * index + 14);
            let expected = Quad::from_words(words);
            assert(quad.position =~= expected.position);
            assert(quad.scale =~= expected.scale);
            assert(quad.color =~= expected.color);
            assert(quad.border_color =~= expected.border_color);
        }
        Some(quad)
    }
}

/// Record `index` of an instance buffer with the contents `buffer`: the quad
/// that words `14 * index` to `14 * index + 13` of the buffer spell, or `None`
/// where the buffer ends before the end of the record.
pub open spec fn read_back(buffer: Seq<u8>, index: int) -> Option<Quad> {
    if 0 <= index < buffer.len() / 56 {
        Some(Quad::from_words(bytes_to_words(buffer).subrange(14 * index, 14 * index + 14)))
    } else {
        None
    }
}

/// The words of a run of quads: fourteen to a quad, quad after quad.
pub open spec fn instances_words(instances: Seq<Quad>) -> Seq<u32> {
    Seq::new(14 * instances.len(), |i: int| instances[i / 14].words()[i % 14])
}

/// The contents of an instance buffer that holds `instances` from its start.
pub open spec fn instances_bytes(instances: Seq<Quad>) -> Seq<u8> {
    words_to_bytes(instances_words(instances))
}

/// A quad is the quad that its words spell.
pub proof fn lemma_quad_words(quad: Quad)
    ensures
        quad.words().len() == 14,
        Quad::from_words(quad.words()) == quad,
{
    let back = Quad::from_words(quad.words());
    assert(back.position =~= quad.position);
    assert(back.scale =~= quad.scale);
    assert(back.color =~= quad.color);
    assert(back.border_color =~= quad.border_color);
}

/// A quad that was written into an instance buffer is read back from it with
/// every bit of every field as it was written.
pub proof fn lemma_instance_round_trip(instances: Seq<Quad>, index: int)
    requires
        0 <= index < instances.len(),
    ensures
        instances_bytes(instances).len() == 56 * instances.len(),
        read_back(instances_bytes(instances), index) == Some(instances[index]),
{
    let words = instances_words(instances);
    lemma_words_round_trip(words);
    lemma_quad_words(instances[index]);
    assert(words.subrange(14 * index, 14 * index + 14) =~= instances[index].words()) by {
        assert forall|i: int| 0 <= i < 14 implies words[14 * index + i] == instances[index].words()[i] by {
            assert((14 * index + i) / 14 == index);
            assert((14 * index + i) % 14 == i);
        }
    }
}

/// The bytes of the quads `instances`, as they are staged for the instance
/// buffer.
pub fn stage_instances(instances: &[Quad]) -> (staged: Vec<u8>)
    ensures
        staged@ == instances_bytes(instances@),
{
    let mut staged: Vec<u8> = Vec::new();
    let mut k: usize = 0;
    assert(staged@ =~= instances_bytes(instances@.take(0)));
    while k < instances.len()
        invariant
            k <= instances.len(),
            staged@ == instances_bytes(instances@.take(k as int)),
        decreases instances.len() - k,
    {
        let ghost before = instances@.take(k as int);
        let ghost after = instances@.take(k + 1);
        instances[k].write(&mut staged);
        proof {
            lemma_quad_words(instances@[k as int]);
            assert(instances_words(after) =~= instances_words(before) + instances@[k as int].words())
                by {
                assert forall|i: int| 0 <= i < 14 * after.len() implies instances_words(after)[i] == (
                instances_words(before) + instances@[k as int].words())[i] by {
                    if i >= 14 * k {
                        assert(i / 14 == k);
                        assert(i % 14 == i - 14 * k);
                    } else {
                        assert(i / 14 < k);
                    }
                }
            }
            lemma_words_to_bytes_concat(
                instances_words(before),
                instances@[k as int].words(),
            );
        }
        k = k + 1;
    }
    assert(instances@.take(k as int) =~= instances@);
    staged
}

/// What the shaders read besides the vertices: the projection and the scale
/// factor of the target, as binary32 encodings.
#[derive(Clone, Copy, Debug, PartialEq, Eq)]
pub struct Uniforms {
    /// The sixteen entries of the projection, column by column.
    pub transform: [u32; 16],
    pub scale: u32,
}

/// The words of the uniforms for the projection `entries` and the scale
/// factor with the encoding `scale`: every entry rounded to the nearest
/// binary32 value, then the scale factor.
pub open spec fn uniforms_words(entries: Seq<Ratio>, scale: u32) -> Seq<u32> {
    entries_bits(entries) + seq![scale]
}

impl Uniforms {
    /// The words of the uniforms in the order in which the uniform buffer
    /// holds them.
    pub open spec fn words(self) -> Seq<u32> {
        self.transform@ + seq![self.scale]
    }

    /// The bytes of the uniforms in the uniform buffer.
    pub open spec fn bytes(self) -> Seq<u8> {
        words_to_bytes(self.words())
    }

    /// The uniforms for a projection and a scale factor. `scale` is the
    /// binary32 encoding of the factor.
    pub fn new(transformation: Transformation, scale: u32) -> (uniforms: Uniforms)
        ensures
            uniforms.words() == uniforms_words(transformation@, scale),
    {
        Uniforms { transform: transformation.as_bits(), scale }
    }

    /// The bytes of the uniforms, as they are staged for the uniform buffer.
    pub fn to_bytes(&self) -> (staged: Vec<u8>)
        ensures
            staged@ == self.bytes(),
    {
        let mut staged: Vec<u8> = Vec::new();
        push_words(&mut staged, self.transform.as_slice());
        let scale: [u32; 1] = [self.scale];
        push_words(&mut staged, scale.as_slice());
        proof {
            lemma_words_to_bytes_concat(self.transform@, seq![self.scale]);
        }
        staged
    }
}

impl Default for Uniforms {
    /// The uniforms before the first draw: the identity and the scale factor 1.
    fn default() -> (uniforms: Uniforms)
        ensures
            uniforms.words() == uniforms_words(identity_entries(), ONE),
    {
        Uniforms::new(Transformation::identity(), ONE)
    }
}

/// The default uniforms hold the encodings of the identity matrix and of the
/// scale factor 1.
pub proof fn lemma_default_uniforms()
    ensures
        uniforms_words(identity_entries(), ONE) == seq![
            ONE, 0, 0, 0,
            0, ONE, 0, 0,
            0, 0, ONE, 0,
            0, 0, 0, ONE,
            ONE,
        ],
{
    lemma_rounded_units();
    assert(uniforms_words(identity_entries(), ONE) =~= seq![
        ONE, 0, 0, 0,
        0, ONE, 0, 0,
        0, 0, ONE, 0,
        0, 0, 0, ONE,
        ONE,
    ]);
}

/// The formats of the attributes of a vertex of the mesh: its position.
pub open spec fn mesh_formats() -> Seq<VertexFormat> {
    seq![VertexFormat::Float2]
}

/// The formats of the attributes of a quad, in the order of its fields:
/// position, scale, colour, border colour, border radius, border width.
pub open spec fn instance_formats() -> Seq<VertexFormat> {
    seq![
        VertexFormat::Float2,
        VertexFormat::Float2,
        VertexFormat::Float4,
        VertexFormat::Float4,
        VertexFormat::Float,
        VertexFormat::Float,
    ]
}

/// The fixed-function state that quads are drawn with: lists of triangles
/// that face the viewer when wound clockwise, none culled, no depth bias; the
/// source blended over the target by its alpha; 16-bit indices; one sample
/// per pixel; no depth or stencil.
pub open spec fn quad_render_state() -> RenderState {
    RenderState {
        primitive_topology: PrimitiveTopology::TriangleList,
        front_face: FrontFace::Cw,
        cull_mode: CullMode::Nothing,
        depth_bias: 0,
        depth_bias_slope_scale: ZERO,
        depth_bias_clamp: ZERO,
        format: TextureFormat::Bgra8UnormSrgb,
        color_blend: BlendDescriptor {
            src_factor: BlendFactor::SrcAlpha,
            dst_factor: BlendFactor::OneMinusSrcAlpha,
            operation: BlendOperation::Add,
        },
        alpha_blend: BlendDescriptor {
            src_factor: BlendFactor::One,
            dst_factor: BlendFactor::OneMinusSrcAlpha,
            operation: BlendOperation::Add,
        },
        write_mask: ColorWrite { red: true, green: true, blue: true, alpha: true },
        depth_stencil: false,
        index_format: IndexFormat::Uint16,
        sample_count: 1,
        sample_mask: 0xffff_ffff,
        alpha_to_coverage_enabled: false,
    }
}

/// Everything that is created once for the drawing of quads.
#[derive(Clone, Debug, PartialEq, Eq)]
pub struct PipelineDescriptor {
    pub vertex_stage: ProgrammableStage,
    pub fragment_stage: ProgrammableStage,
    /// The layout of the vertex buffer in slot 0, the mesh.
    pub mesh_layout: VertexBufferDescriptor,
    /// The layout of the vertex buffer in slot 1, the instances.
    pub instance_layout: VertexBufferDescriptor,
    pub state: RenderState,
    /// The binding of the uniform buffer, in bind group 0.
    pub constants: UniformBinding,
    /// The uniform buffer.
    pub constants_buffer: Buffer,
    /// The vertex buffer of the mesh.
    pub vertices: Buffer,
    /// The index buffer of the mesh.
    pub indices: Buffer,
    /// The instance buffer.
    pub instances: Buffer,
}

/// What a `PipelineDescriptor` says.
pub struct PipelineDescription {
    pub vertex_stage: ProgrammableStageView,
    pub fragment_stage: ProgrammableStageView,
    pub mesh_layout: VertexBufferLayout,
    pub instance_layout: VertexBufferLayout,
    pub state: RenderState,
    pub constants: UniformBinding,
    pub constants_buffer: BufferView,
    pub vertices: BufferView,
    pub indices: BufferView,
    pub instances: BufferView,
}

impl View for PipelineDescriptor {
    type V = PipelineDescription;

    open spec fn view(&self) -> PipelineDescription {
        PipelineDescription {
            vertex_stage: self.vertex_stage@,
            fragment_stage: self.fragment_stage@,
            mesh_layout: self.mesh_layout@,
            instance_layout: self.instance_layout@,
            state: self.state,
            constants: self.constants,
            constants_buffer: self.constants_buffer@,
            vertices: self.vertices@,
            indices: self.indices@,
            instances: self.instances@,
        }
    }
}

/// The pipeline that draws quads with the shaders `vertex` and `fragment`:
/// - both shaders are entered at `main`;
/// - the mesh has one attribute, the position, at location 0; a quad has six,
///   at locations 1 to 6, one after the other in the order of its fields;
/// - the uniforms are bound to slot 0, for the vertex stage, and their buffer
///   starts out with the default uniforms;
/// - the vertex and index buffers hold the unit square and its two triangles;
/// - the instance buffer has room for `MAX_INSTANCES` quads and is created
///   without contents.
pub open spec fn quad_pipeline(vertex: Seq<u32>, fragment: Seq<u32>) -> PipelineDescription {
    PipelineDescription {
        vertex_stage: ProgrammableStageView { module: vertex, entry_point: "main"@ },
        fragment_stage: ProgrammableStageView { module: fragment, entry_point: "main"@ },
        mesh_layout: packed_layout(0, InputStepMode::Vertex, mesh_formats()),
        instance_layout: packed_layout(1, InputStepMode::Instance, instance_formats()),
        state: quad_render_state(),
        constants: UniformBinding {
            binding: 0,
            visibility: ShaderStage::Vertex,
            dynamic: false,
            start: 0,
            end: UNIFORMS_SIZE as u64,
        },
        constants_buffer: BufferView {
            size: UNIFORMS_SIZE as u64,
            usage: BufferUsage {
                vertex: false,
                index: false,
                uniform: true,
                copy_src: false,
                copy_dst: true,
            },
            contents: words_to_bytes(uniforms_words(identity_entries(), ONE)),
        },
        vertices: BufferView {
            size: (4 * VERTEX_SIZE) as u64,
            usage: BufferUsage {
                vertex: true,
                index: false,
                uniform: false,
                copy_src: false,
                copy_dst: false,
            },
            contents: words_to_bytes(unit_square_words()),
        },
        indices: BufferView {
            size: 12,
            usage: BufferUsage {
                vertex: false,
                index: true,
                uniform: false,
                copy_src: false,
                copy_dst: false,
            },
            contents: halves_to_bytes(QUAD_INDICES@),
        },
        instances: BufferView {
            size: (QUAD_SIZE * MAX_INSTANCES) as u64,
            usage: BufferUsage {
                vertex: true,
                index: false,
                uniform: false,
                copy_src: false,
                copy_dst: true,
            },
            contents: Seq::empty(),
        },
    }
}

/// Why a pipeline was not made.
#[derive(Clone, Copy, Debug, PartialEq, Eq, Structural)]
pub enum PipelineError {
    /// The vertex shader is no SPIR-V module.
    VertexShader(ShaderError),
    /// The fragment shader is no SPIR-V module.
    FragmentShader(ShaderError),
}

/// Why a draw was refused: an argument is not valid.
#[derive(Clone, Copy, Debug, PartialEq, Eq, Structural)]
pub enum DrawError {
    /// More instances were given than the instance buffer holds.
    TooManyInstances { given: usize, capacity: usize },
}

/// What one draw records: the copies, in their order, and then the render
/// pass on the target.
#[derive(Clone, Debug, PartialEq, Eq)]
pub struct Draw {
    pub copies: Vec<BufferCopy>,
    pub pass: RenderPass,
}

/// What a `Draw` says.
pub struct DrawView {
    pub copies: Seq<BufferCopyView>,
    pub pass: RenderPass,
}

impl View for Draw {
    type V = DrawView;

    open spec fn view(&self) -> DrawView {
        DrawView {
            copies: Seq::new(self.copies@.len(), |i: int| self.copies@[i]@),
            pass: self.pass,
        }
    }
}

/// The render pass that draws `count` quads: the target is cleared to white
/// and kept; the uniforms are bound at index 0, the mesh is in vertex buffer
/// slot 0, the instance buffer in slot 1, and all buffers are read from their
/// start; one draw call takes the six indices of the mesh through the
/// instances `0..count`.
pub open spec fn quad_pass(count: nat) -> RenderPass {
    RenderPass {
        load_op: LoadOp::Clear,
        store_op: StoreOp::Store,
        clear_color: Color::White,
        bind_group: 0,
        vertices: BufferBinding { buffer: BufferSlot::Vertices, offset: 0 },
        instances: BufferBinding { buffer: BufferSlot::Instances, offset: 0 },
        indices: BufferBinding { buffer: BufferSlot::Indices, offset: 0 },
        draw: DrawIndexed {
            indices: Span { start: 0, end: 6 },
            base_vertex: 0,
            instances: Span { start: 0, end: count as u32 },
        },
    }
}

/// The copy of the uniforms for the projection `entries` and the scale
/// factor with the encoding `scale` to the start of the uniform buffer.
pub open spec fn uniforms_copy(entries: Seq<Ratio>, scale: u32) -> BufferCopyView {
    BufferCopyView {
        destination: BufferSlot::Constants,
        destination_offset: 0,
        contents: words_to_bytes(uniforms_words(entries, scale)),
    }
}

/// The copy of `instances` to the start of the instance buffer.
pub open spec fn instances_copy(instances: Seq<Quad>) -> BufferCopyView {
    BufferCopyView {
        destination: BufferSlot::Instances,
        destination_offset: 0,
        contents: instances_bytes(instances),
    }
}

/// What the draw of `instances` under the projection `entries` and the scale
/// factor with the encoding `scale` records: the copy of the uniforms; the
/// copy of the instances, where there are any; the pass that draws them.
pub open spec fn recorded(entries: Seq<Ratio>, scale: u32, instances: Seq<Quad>) -> DrawView {
    DrawView {
        copies: if instances.len() == 0 {
            seq![uniforms_copy(entries, scale)]
        } else {
            seq![uniforms_copy(entries, scale), instances_copy(instances)]
        },
        pass: quad_pass(instances.len()),
    }
}

/// The pipeline for quads: what is created once, and what the buffers hold
/// after the draws so far.
#[derive(Debug, PartialEq, Eq)]
pub struct Pipeline {
    descriptor: PipelineDescriptor,
    uniforms: Uniforms,
    instance_count: usize,
}

/// What a `Pipeline` says.
pub struct PipelineView {
    pub descriptor: PipelineDescription,
    /// The words that the uniform buffer holds once what was recorded has
    /// run.
    pub uniforms: Seq<u32>,
    /// The number of quads that the latest draw put into the instance buffer.
    pub instance_count: nat,
}

impl View for Pipeline {
    type V = PipelineView;

    closed spec fn view(&self) -> PipelineView {
        PipelineView {
            descriptor: self.descriptor@,
            uniforms: self.uniforms.words(),
            instance_count: self.instance_count as nat,
        }
    }
}

/// The pipeline that is made of the given shaders, or the reason why none
/// is: the error of the vertex shader, else the error of the fragment shader.
/// A new pipeline holds the default uniforms and has drawn nothing.
pub open spec fn pipeline_of(vertex_shader: Seq<u8>, fragment_shader: Seq<u8>) -> Result<
    PipelineView,
    PipelineError,
> {
    if shader_error(vertex_shader) is Some {
        Err(PipelineError::VertexShader(shader_error(vertex_shader).unwrap()))
    } else if shader_error(fragment_shader) is Some {
        Err(PipelineError::FragmentShader(shader_error(fragment_shader).unwrap()))
    } else {
        Ok(
            PipelineView {
                descriptor: quad_pipeline(
                    spirv_words(vertex_shader).unwrap(),
                    spirv_words(fragment_shader).unwrap(),
                ),
                uniforms: uniforms_words(identity_entries(), ONE),
                instance_count: 0,
            },
        )
    }
}

/// What holds of a pipeline at all times: what is created for it is what
/// `quad_pipeline` describes for its shaders, its uniform buffer holds the
/// words of some uniforms, and the latest draw put no more quads into the
/// instance buffer than it has room for.
pub open spec fn valid_pipeline(pipeline: PipelineView) -> bool {
    &&& pipeline.descriptor == quad_pipeline(
        pipeline.descriptor.vertex_stage.module,
        pipeline.descriptor.fragment_stage.module,
    )
    &&& 4 * pipeline.uniforms.len() == pipeline.descriptor.constants_buffer.size
    &&& pipeline.instance_count <= MAX_INSTANCES
}

impl Pipeline {
    #[verifier::type_invariant]
    pub(crate) open spec fn well_formed(self) -> bool {
        valid_pipeline(self@)
    }

    /// The pipeline for quads with the given shaders, each the bytes of a
    /// SPIR-V module. The vertex shader is read first.
    pub fn new(vertex_shader: &[u8], fragment_shader: &[u8]) -> (result: Result<
        Pipeline,
        PipelineError,
    >)
        ensures
            match result {
                Ok(pipeline) => pipeline_of(vertex_shader@, fragment_shader@) == Ok::<
                    PipelineView,
                    PipelineError,
                >(pipeline@),
                Err(error) => pipeline_of(vertex_shader@, fragment_shader@) == Err::<
                    PipelineView,
                    PipelineError,
                >(error),
            },
    {
        let vertex_words = match parse(vertex_shader) {
            Ok(words) => words,
            Err(error) => {
                return Err(PipelineError::VertexShader(error));
            },
        };
        let fragment_words = match parse(fragment_shader) {
            Ok(words) => words,
            Err(error) => {
                return Err(PipelineError::FragmentShader(error));
            },
        };
        let mesh_formats: [VertexFormat; 1] = [VertexFormat::Float2];
        let instance_formats: [VertexFormat; 6] = [
            VertexFormat::Float2,
            VertexFormat::Float2,
            VertexFormat::Float4,
            VertexFormat::Float4,
            VertexFormat::Float,
            VertexFormat::Float,
        ];
        assert(mesh_formats@ =~= self::mesh_formats());
        assert(instance_formats@ =~= self::instance_formats());
        let mesh_layout = VertexBufferDescriptor::packed(
            0,
            InputStepMode::Vertex,
            mesh_formats.as_slice(),
        );
        let instance_layout = VertexBufferDescriptor::packed(
            1,
            InputStepMode::Instance,
            instance_formats.as_slice(),
        );
        let state = RenderState {
            primitive_topology: PrimitiveTopology::TriangleList,
            front_face: FrontFace::Cw,
            cull_mode: CullMode::Nothing,
            depth_bias: 0,
            depth_bias_slope_scale: ZERO,
            depth_bias_clamp: ZERO,
            format: TextureFormat::Bgra8UnormSrgb,
            color_blend: BlendDescriptor {
                src_factor: BlendFactor::SrcAlpha,
                dst_factor: BlendFactor::OneMinusSrcAlpha,
                operation: BlendOperation::Add,
            },
            alpha_blend: BlendDescriptor {
                src_factor: BlendFactor::One,
                dst_factor: BlendFactor::OneMinusSrcAlpha,
                operation: BlendOperation::Add,
            },
            write_mask: ColorWrite { red: true, green: true, blue: true, alpha: true },
            depth_stencil: false,
            index_format: IndexFormat::Uint16,
            sample_count: 1,
            sample_mask: 0xffff_ffff,
            alpha_to_coverage_enabled: false,
        };
        let uniforms = Uniforms::default();
        let constants_buffer = Buffer {
            size: UNIFORMS_SIZE as u64,
            usage: BufferUsage {
                vertex: false,
                index: false,
                uniform: true,
                copy_src: false,
                copy_dst: true,
            },
            contents: uniforms.to_bytes(),
        };
        let mesh = quad_verts();
        let mut mesh_bytes: Vec<u8> = Vec::new();
        push_words(&mut mesh_bytes, mesh[0].position.as_slice());
        push_words(&mut mesh_bytes, mesh[1].position.as_slice());
        push_words(&mut mesh_bytes, mesh[2].position.as_slice());
        push_words(&mut mesh_bytes, mesh[3].position.as_slice());
        proof {
            let corner0 = mesh[0].position@;
            let corner1 = mesh[1].position@;
            let corner2 = mesh[2].position@;
            let corner3 = mesh[3].position@;
            lemma_words_to_bytes_concat(corner0, corner1);
            lemma_words_to_bytes_concat(corner0 + corner1, corner2);
            lemma_words_to_bytes_concat(corner0 + corner1 + corner2, corner3);
            assert(mesh_bytes@ =~= words_to_bytes(unit_square_words()));
        }
        let vertices = Buffer {
            size: (4 * VERTEX_SIZE) as u64,
            usage: BufferUsage {
                vertex: true,
                index: false,
                uniform: false,
                copy_src: false,
                copy_dst: false,
            },
            contents: mesh_bytes,
        };
        let mut index_bytes: Vec<u8> = Vec::new();
        push_halves(&mut index_bytes, QUAD_INDICES.as_slice());
        let indices = Buffer {
            size: 12,
            usage: BufferUsage {
                vertex: false,
                index: true,
                uniform: false,
                copy_src: false,
                copy_dst: false,
            },
            contents: index_bytes,
        };
        let instances = Buffer {
            size: (QUAD_SIZE * MAX_INSTANCES) as u64,
            usage: BufferUsage {
                vertex: true,
                index: false,
                uniform: false,
                copy_src: false,
                copy_dst: true,
            },
            contents: Vec::new(),
        };
        let descriptor = PipelineDescriptor {
            vertex_stage: ProgrammableStage { module: vertex_words, entry_point: "main" },
            fragment_stage: ProgrammableStage { module: fragment_words, entry_point: "main" },
            mesh_layout,
            instance_layout,
            state,
            constants: UniformBinding {
                binding: 0,
                visibility: ShaderStage::Vertex,
                dynamic: false,
                start: 0,
                end: UNIFORMS_SIZE as u64,
            },
            constants_buffer,
            vertices,
            indices,
            instances,
        };
        assert(index_bytes@ =~= halves_to_bytes(QUAD_INDICES@));
        Ok(Pipeline { descriptor, uniforms, instance_count: 0 })
    }

    /// What is created once for this pipeline.
    pub fn descriptor(&self) -> (descriptor: &PipelineDescriptor)
        ensures
            descriptor@ == self@.descriptor,
            valid_pipeline(self@),
    {
        proof {
            use_type_invariant(self);
        }
        &self.descriptor
    }

    /// The uniforms that the uniform buffer holds once what was recorded has
    /// run.
    pub fn uniforms(&self) -> (uniforms: Uniforms)
        ensures
            uniforms.words() == self@.uniforms,
    {
        self.uniforms
    }

    /// The number of quads that the latest draw put into the instance
    /// buffer.
    pub fn instance_count(&self) -> (count: usize)
        ensures
            count == self@.instance_count,
            count <= MAX_INSTANCES,
    {
        proof {
            use_type_invariant(self);
        }
        self.instance_count
    }

    /// Records the drawing of `instances`, seen through `transformation`, on
    /// a target with the scale factor `scale` (the binary32 encoding of the
    /// factor). More than `MAX_INSTANCES` instances are refused, and then
    /// nothing is recorded and no buffer changes. No instances are drawn as
    /// any other number: the pass clears the target. `bounds` is the region
    /// that the quads are meant for; nothing is clipped to it.
    #[allow(unused_variables)]
    pub fn draw(
        &mut self,
        transformation: Transformation,
        scale: u32,
        bounds: Rectangle<u32>,
        instances: &[Quad],
    ) -> (result: Result<Draw, DrawError>)
        ensures
            match result {
                Ok(draw) => {
                    &&& instances.len() <= MAX_INSTANCES
                    &&& draw@ == recorded(transformation@, scale, instances@)
                    &&& final(self)@ == (PipelineView {
                        uniforms: uniforms_words(transformation@, scale),
                        instance_count: instances.len() as nat,
                        ..old(self)@
                    })
                },
                Err(error) => {
                    &&& instances.len() > MAX_INSTANCES
                    &&& error == (DrawError::TooManyInstances {
                        given: instances.len(),
                        capacity: MAX_INSTANCES,
                    })
                    &&& final(self)@ == old(self)@
                },
            },
            valid_pipeline(final(self)@),
    {
        proof {
            use_type_invariant(&*self);
        }
        if instances.len() > MAX_INSTANCES {
            return Err(
                DrawError::TooManyInstances { given: instances.len(), capacity: MAX_INSTANCES },
            );
        }
        Ok(self.record(transformation, scale, instances))
    }

    /// Records the drawing of instances that the instance buffer has room
    /// for.
    pub(crate) fn record(
        &mut self,
        transformation: Transformation,
        scale: u32,
        instances: &[Quad],
    ) -> (draw: Draw)
        requires
            instances.len() <= MAX_INSTANCES,
        ensures
            draw@ == recorded(transformation@, scale, instances@),
            final(self)@ == (PipelineView {
                uniforms: uniforms_words(transformation@, scale),
                instance_count: instances.len() as nat,
                ..old(self)@
            }),
            valid_pipeline(final(self)@),
    {
        proof {
            use_type_invariant(&*self);
        }
        let uniforms = Uniforms::new(transformation, scale);
        let mut copies: Vec<BufferCopy> = Vec::new();
        copies.push(
            BufferCopy {
                destination: BufferSlot::Constants,
                destination_offset: 0,
                contents: uniforms.to_bytes(),
            },
        );
        if instances.len() > 0 {
            copies.push(
                BufferCopy {
                    destination: BufferSlot::Instances,
                    destination_offset: 0,
                    contents: stage_instances(instances),
                },
            );
        }
        let pass = RenderPass {
            load_op: LoadOp::Clear,
            store_op: StoreOp::Store,
            clear_color: Color::White,
            bind_group: 0,
            vertices: BufferBinding { buffer: BufferSlot::Vertices, offset: 0 },
            instances: BufferBinding { buffer: BufferSlot::Instances, offset: 0 },
            indices: BufferBinding { buffer: BufferSlot::Indices, offset: 0 },
            draw: DrawIndexed {
                indices: Span { start: 0, end: QUAD_INDICES.len() as u32 },
                base_vertex: 0,
                instances: Span { start: 0, end: instances.len() as u32 },
            },
        };
        let draw = Draw { copies, pass };
        assert(draw@.copies =~= recorded(transformation@, scale, instances@).copies);
        self.uniforms = uniforms;
        self.instance_count = instances.len();
        draw
    }
}

/// The attribute of an instance at `location`, as the instance layout has it.
pub open spec fn instance_attribute(location: int) -> VertexAttributeDescriptor {
    packed_layout(1, InputStepMode::Instance, instance_formats()).attributes[location - 1]
}

/// The layouts of the two vertex buffers, written out. An element of the
/// mesh is one vertex and an element of the instance buffer is one quad.
pub proof fn lemma_quad_layouts()
    ensures
        packed_layout(0, InputStepMode::Vertex, mesh_formats()) == (VertexBufferLayout {
            stride: VERTEX_SIZE as u64,
            step_mode: InputStepMode::Vertex,
            attributes: seq![
                VertexAttributeDescriptor {
                    shader_location: 0,
                    format: VertexFormat::Float2,
                    offset: 0,
                },
            ],
        }),
        packed_layout(1, InputStepMode::Instance, instance_formats()) == (VertexBufferLayout {
            stride: QUAD_SIZE as u64,
            step_mode: InputStepMode::Instance,
            attributes: seq![
                VertexAttributeDescriptor {
                    shader_location: 1,
                    format: VertexFormat::Float2,
                    offset: 0,
                },
                VertexAttributeDescriptor {
                    shader_location: 2,
                    format: VertexFormat::Float2,
                    offset: 8,
                },
                VertexAttributeDescriptor {
                    shader_location: 3,
                    format: VertexFormat::Float4,
                    offset: 16,
                },
                VertexAttributeDescriptor {
                    shader_location: 4,
                    format: VertexFormat::Float4,
                    offset: 32,
                },
                VertexAttributeDescriptor {
                    shader_location: 5,
                    format: VertexFormat::Float,
                    offset: 48,
                },
                VertexAttributeDescriptor {
                    shader_location: 6,
                    format: VertexFormat::Float,
                    offset: 52,
                },
            ],
        }),
{
    reveal_with_fuel(packed_offset, 7);
    let mesh = packed_layout(0, InputStepMode::Vertex, mesh_formats());
    assert(mesh.attributes =~= seq![
        VertexAttributeDescriptor { shader_location: 0, format: VertexFormat::Float2, offset: 0 },
    ]);
    let instance = packed_layout(1, InputStepMode::Instance, instance_formats());
    assert(instance.attributes =~= seq![
        VertexAttributeDescriptor { shader_location: 1, format: VertexFormat::Float2, offset: 0 },
        VertexAttributeDescriptor { shader_location: 2, format: VertexFormat::Float2, offset: 8 },
        VertexAttributeDescriptor { shader_location: 3, format: VertexFormat::Float4, offset: 16 },
        VertexAttributeDescriptor { shader_location: 4, format: VertexFormat::Float4, offset: 32 },
        VertexAttributeDescriptor { shader_location: 5, format: VertexFormat::Float, offset: 48 },
        VertexAttributeDescriptor { shader_location: 6, format: VertexFormat::Float, offset: 52 },
    ]);
}

/// The bytes of a quad from the offset of the attribute at `location`, as
/// many as the attribute takes.
pub open spec fn attribute_bytes(quad: Quad, location: int) -> Seq<u8> {
    let attribute = instance_attribute(location);
    quad.bytes().subrange(
        attribute.offset as int,
        attribute.offset as int + attribute.format.spec_size(),
    )
}

/// The instance layout reads each field of a quad where the quad's bytes
/// hold it: position at location 1, scale at 2, colour at 3, border colour
/// at 4, border radius at 5 and border width at 6.
pub proof fn lemma_attributes_read_fields(quad: Quad)
    ensures
        attribute_bytes(quad, 1) == words_to_bytes(quad.position@),
        attribute_bytes(quad, 2) == words_to_bytes(quad.scale@),
        attribute_bytes(quad, 3) == words_to_bytes(quad.color@),
        attribute_bytes(quad, 4) == words_to_bytes(quad.border_color@),
        attribute_bytes(quad, 5) == words_to_bytes(seq![quad.border_radius]),
        attribute_bytes(quad, 6) == words_to_bytes(seq![quad.border_width]),
{
    lemma_quad_layouts();
    assert(attribute_bytes(quad, 1) =~= words_to_bytes(quad.position@));
    assert(attribute_bytes(quad, 2) =~= words_to_bytes(quad.scale@));
    assert(attribute_bytes(quad, 3) =~= words_to_bytes(quad.color@));
    assert(attribute_bytes(quad, 4) =~= words_to_bytes(quad.border_color@));
    assert(attribute_bytes(quad, 5) =~= words_to_bytes(seq![quad.border_radius]));
    assert(attribute_bytes(quad, 6) =~= words_to_bytes(seq![quad.border_width]));
}

/// Every buffer of the pipeline that is created with contents has the size
/// of its contents, the uniforms are bound whole, and the instance buffer
/// has room for `MAX_INSTANCES` elements of the instance layout.
pub proof fn lemma_pipeline_sizes(vertex: Seq<u32>, fragment: Seq<u32>)
    ensures
        ({
            let pipeline = quad_pipeline(vertex, fragment);
            &&& pipeline.constants_buffer.contents.len() == pipeline.constants_buffer.size
            &&& pipeline.vertices.contents.len() == pipeline.vertices.size
            &&& pipeline.indices.contents.len() == pipeline.indices.size
            &&& pipeline.constants.start == 0
            &&& pipeline.constants.end == pipeline.constants_buffer.size
            &&& pipeline.vertices.size == 4 * pipeline.mesh_layout.stride
            &&& pipeline.instances.size == MAX_INSTANCES * pipeline.instance_layout.stride
        }),
{
    lemma_quad_layouts();
}

/// The buffer of `pipeline` that `slot` names.
pub open spec fn buffer_of(pipeline: PipelineDescription, slot: BufferSlot) -> BufferView {
    match slot {
        BufferSlot::Constants => pipeline.constants_buffer,
        BufferSlot::Vertices => pipeline.vertices,
        BufferSlot::Indices => pipeline.indices,
        BufferSlot::Instances => pipeline.instances,
    }
}

/// What an accepted draw records fits the buffers of the pipeline: every
/// copy goes to a buffer that may be copied to and ends within it; the copy of
/// the uniforms fills the bound range; the instances take one element of the
/// instance layout each; and the draw call reads the six indices of the mesh
/// and no instance beyond those that were copied.
pub proof fn lemma_draw_fits(
    vertex: Seq<u32>,
    fragment: Seq<u32>,
    entries: Seq<Ratio>,
    scale: u32,
    instances: Seq<Quad>,
)
    requires
        instances.len() <= MAX_INSTANCES,
    ensures
        ({
            let pipeline = quad_pipeline(vertex, fragment);
            let draw = recorded(entries, scale, instances);
            &&& forall|i: int|
                0 <= i < draw.copies.len() ==> {
                    let copy = #[trigger] draw.copies[i];
                    &&& buffer_of(pipeline, copy.destination).usage.copy_dst
                    &&& copy.contents.len() > 0
                    &&& copy.destination_offset + copy.contents.len() <= buffer_of(
                        pipeline,
                        copy.destination,
                    ).size
                }
            &&& uniforms_copy(entries, scale).contents.len() == pipeline.constants.end
                - pipeline.constants.start
            &&& instances_copy(instances).contents.len() == instances.len()
                * pipeline.instance_layout.stride
            &&& draw.pass.draw.instances.start == 0
            &&& draw.pass.draw.instances.end == instances.len()
            &&& draw.pass.draw.indices.start == 0
            &&& 2 * draw.pass.draw.indices.end == pipeline.indices.size
        }),
{
    lemma_quad_layouts();
    let pipeline = quad_pipeline(vertex, fragment);
    assert(instances.len() * pipeline.instance_layout.stride == 56 * instances.len())
        by (nonlinear_arith)
        requires
            pipeline.instance_layout.stride == 56,
    ;
}

} // verus!
