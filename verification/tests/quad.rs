use visper_graphics::binary32::ONE;
use visper_graphics::binary32::ZERO;
use visper_graphics::device::BlendDescriptor;
use visper_graphics::device::BlendFactor;
use visper_graphics::device::BlendOperation;
use visper_graphics::device::BufferBinding;
use visper_graphics::device::BufferSlot;
use visper_graphics::device::BufferUsage;
use visper_graphics::device::Color;
use visper_graphics::device::ColorWrite;
use visper_graphics::device::CullMode;
use visper_graphics::device::DrawIndexed;
use visper_graphics::device::FrontFace;
use visper_graphics::device::IndexFormat;
use visper_graphics::device::InputStepMode;
use visper_graphics::device::LoadOp;
use visper_graphics::device::PrimitiveTopology;
use visper_graphics::device::ShaderStage;
use visper_graphics::device::Span;
use visper_graphics::device::StoreOp;
use visper_graphics::device::TextureFormat;
use visper_graphics::device::VertexAttributeDescriptor;
use visper_graphics::device::VertexFormat;
use visper_graphics::primitive::quad::quad_verts;
use visper_graphics::primitive::quad::stage_instances;
use visper_graphics::primitive::quad::DrawError;
use visper_graphics::primitive::quad::Pipeline;
use visper_graphics::primitive::quad::PipelineError;
use visper_graphics::primitive::quad::Quad;
use visper_graphics::primitive::quad::Uniforms;
use visper_graphics::primitive::quad::MAX_INSTANCES;
use visper_graphics::primitive::quad::QUAD_INDICES;
use visper_graphics::primitive::quad::QUAD_SIZE;
use visper_graphics::primitive::quad::QUAD_WORDS;
use visper_graphics::primitive::quad::UNIFORMS_SIZE;
use visper_graphics::primitive::quad::VERTEX_SIZE;
use visper_graphics::rectangle::Rectangle;
use visper_graphics::shader::ShaderError;
use visper_graphics::transformation::Transformation;

const VERTEX_SHADER: [u8; 8] = [0x03, 0x02, 0x23, 0x07, 0x01, 0x00, 0x00, 0x00];

const FRAGMENT_SHADER: [u8; 12] = [
    0x07, 0x23, 0x02, 0x03, 0x00, 0x00, 0x00, 0x02, 0x00, 0x00, 0x00, 0x03,
];

fn bits(values: [f32; 2]) -> [u32; 2] {
    [values[0].to_bits(), values[1].to_bits()]
}

fn bits4(values: [f32; 4]) -> [u32; 4] {
    [values[0].to_bits(), values[1].to_bits(), values[2].to_bits(), values[3].to_bits()]
}

fn magenta() -> Quad {
    Quad {
        position: bits([30.0, 30.0]),
        scale: bits([100.0, 100.0]),
        color: bits4([1.0, 0.0, 1.0, 1.0]),
        border_color: bits4([0.0, 0.0, 1.0, 1.0]),
        border_radius: 5.03f32.to_bits(),
        border_width: 3.05f32.to_bits(),
    }
}

fn numbered(k: u32) -> Quad {
    Quad {
        position: [k, k + 1],
        scale: [k + 2, k + 3],
        color: [k + 4, k + 5, k + 6, k + 7],
        border_color: [k + 8, k + 9, k + 10, k + 11],
        border_radius: k + 12,
        border_width: k + 13,
    }
}

fn floats_bytes(values: &[f32]) -> Vec<u8> {
    let mut out = Vec::new();
    for value in values.iter() {
        out.extend_from_slice(&value.to_le_bytes());
    }
    out
}

fn bounds() -> Rectangle<u32> {
    Rectangle { x: 30, y: 30, width: 100, height: 100 }
}

fn quads() -> Pipeline {
    match Pipeline::new(&VERTEX_SHADER, &FRAGMENT_SHADER) {
        Ok(pipeline) => pipeline,
        Err(error) => panic!("no pipeline: {:?}", error),
    }
}

#[test]
fn quad_foo() {
    assert_eq!(1, 1)
}

#[test]
fn pipeline() {
    let p = Pipeline::new(&VERTEX_SHADER, &FRAGMENT_SHADER);
    assert!(p.is_ok());
}

#[test]
fn sizes_are_those_of_the_records() {
    assert_eq!(MAX_INSTANCES, 100_000);
    assert_eq!(QUAD_WORDS, 14);
    assert_eq!(QUAD_SIZE, 56);
    assert_eq!(VERTEX_SIZE, 8);
    assert_eq!(UNIFORMS_SIZE, 68);
    assert_eq!(QUAD_SIZE, std::mem::size_of::<Quad>());
    assert_eq!(UNIFORMS_SIZE, std::mem::size_of::<Uniforms>());
}

#[test]
fn the_mesh_is_the_unit_square() {
    let mesh = quad_verts();
    assert_eq!(mesh[0].position, bits([0.0, 0.0]));
    assert_eq!(mesh[1].position, bits([1.0, 0.0]));
    assert_eq!(mesh[2].position, bits([1.0, 1.0]));
    assert_eq!(mesh[3].position, bits([0.0, 1.0]));
    assert_eq!(QUAD_INDICES, [0, 1, 2, 0, 2, 3]);
}

#[test]
fn a_quad_is_written_field_by_field() {
    let mut out: Vec<u8> = vec![0xaa];
    magenta().write(&mut out);
    let mut expected: Vec<u8> = vec![0xaa];
    expected.extend_from_slice(&floats_bytes(&[
        30.0, 30.0, 100.0, 100.0, 1.0, 0.0, 1.0, 1.0, 0.0, 0.0, 1.0, 1.0, 5.03, 3.05,
    ]));
    assert_eq!(out, expected);
    assert_eq!(out.len(), 1 + QUAD_SIZE);
}

#[test]
fn a_word_is_written_least_significant_byte_first() {
    let mut quad = numbered(0);
    quad.position = [0x0403_0201, 0x0807_0605];
    let mut out: Vec<u8> = Vec::new();
    quad.write(&mut out);
    assert_eq!(out[0..8], [1, 2, 3, 4, 5, 6, 7, 8]);
    assert_eq!(out[8..12], [2, 0, 0, 0]);
    assert_eq!(out[52..56], [13, 0, 0, 0]);
}

#[test]
fn a_quad_is_read_back_bit_for_bit() {
    let quads = [
        magenta(),
        numbered(0xffff_fff0u32.wrapping_sub(13)),
        Quad {
            position: [f32::NAN.to_bits(), 0x7fc0_0001],
            scale: [f32::INFINITY.to_bits(), f32::NEG_INFINITY.to_bits()],
            color: [0x8000_0000, 0x0000_0001, 0x007f_ffff, 0x0080_0000],
            border_color: [0xffff_ffff, 0x7f7f_ffff, 0xff80_0001, 0],
            border_radius: (-0.0f32).to_bits(),
            border_width: f32::MIN_POSITIVE.to_bits(),
        },
    ];
    let staged = stage_instances(&quads);
    assert_eq!(staged.len(), 3 * QUAD_SIZE);
    for (index, quad) in quads.iter().enumerate() {
        assert_eq!(Quad::read(&staged, index), Some(*quad));
    }
    assert_eq!(Quad::read(&staged, 3), None);
    assert_eq!(Quad::read(&staged, usize::MAX), None);
}

#[test]
fn a_record_that_is_cut_short_is_not_read() {
    let staged = stage_instances(&[numbered(1), numbered(2)]);
    assert_eq!(Quad::read(&staged[..111], 1), None);
    assert_eq!(Quad::read(&staged[..111], 0), Some(numbered(1)));
    assert_eq!(Quad::read(&staged[..112], 1), Some(numbered(2)));
    assert_eq!(Quad::read(&staged[..55], 0), None);
    assert_eq!(Quad::read(&[], 0), None);
}

#[test]
fn instances_are_staged_one_after_the_other() {
    let staged = stage_instances(&[numbered(100), numbered(200), numbered(300)]);
    let mut expected: Vec<u8> = Vec::new();
    numbered(100).write(&mut expected);
    numbered(200).write(&mut expected);
    numbered(300).write(&mut expected);
    assert_eq!(staged, expected);
    assert_eq!(staged[56..60], 200u32.to_le_bytes());
    assert_eq!(staged[164..168], 313u32.to_le_bytes());
    assert_eq!(stage_instances(&[]), Vec::<u8>::new());
}

#[test]
fn uniforms_hold_the_projection_and_the_scale() {
    let uniforms = Uniforms::new(Transformation::orthographic(300, 300), 1.25f32.to_bits());
    let s = 2.0f32 / 300.0;
    let expected = floats_bytes(&[
        s, 0.0, 0.0, 0.0, 0.0, s, 0.0, 0.0, 0.0, 0.0, 1.0, 0.0, -1.0, -1.0, 0.0, 1.0, 1.25,
    ]);
    assert_eq!(uniforms.scale, 0x3fa0_0000);
    assert_eq!(uniforms.to_bytes(), expected);
    assert_eq!(uniforms.to_bytes().len(), UNIFORMS_SIZE);
}

#[test]
fn the_default_uniforms_are_the_identity_at_scale_one() {
    let uniforms = Uniforms::default();
    assert_eq!(uniforms, Uniforms::new(Transformation::identity(), ONE));
    let expected = floats_bytes(&[
        1.0, 0.0, 0.0, 0.0, 0.0, 1.0, 0.0, 0.0, 0.0, 0.0, 1.0, 0.0, 0.0, 0.0, 0.0, 1.0, 1.0,
    ]);
    assert_eq!(uniforms.to_bytes(), expected);
}

#[test]
fn the_pipeline_takes_the_words_of_its_shaders() {
    let pipeline = quads();
    let descriptor = pipeline.descriptor();
    assert_eq!(descriptor.vertex_stage.module, vec![0x0723_0203, 0x0000_0001]);
    assert_eq!(descriptor.vertex_stage.entry_point, "main");
    assert_eq!(descriptor.fragment_stage.module, vec![0x0723_0203, 0x0000_0002, 0x0000_0003]);
    assert_eq!(descriptor.fragment_stage.entry_point, "main");
}

#[test]
fn the_mesh_layout_has_one_position() {
    let pipeline = quads();
    let layout = &pipeline.descriptor().mesh_layout;
    assert_eq!(layout.stride, 8);
    assert_eq!(layout.step_mode, InputStepMode::Vertex);
    assert_eq!(
        layout.attributes,
        vec![VertexAttributeDescriptor {
            shader_location: 0,
            format: VertexFormat::Float2,
            offset: 0
        }]
    );
}

#[test]
fn the_instance_layout_packs_the_six_fields() {
    let pipeline = quads();
    let layout = &pipeline.descriptor().instance_layout;
    assert_eq!(layout.stride, 56);
    assert_eq!(layout.step_mode, InputStepMode::Instance);
    let expected: [(u32, VertexFormat, u64); 6] = [
        (1, VertexFormat::Float2, 0),
        (2, VertexFormat::Float2, 8),
        (3, VertexFormat::Float4, 16),
        (4, VertexFormat::Float4, 32),
        (5, VertexFormat::Float, 48),
        (6, VertexFormat::Float, 52),
    ];
    assert_eq!(layout.attributes.len(), 6);
    for (attribute, (location, format, offset)) in layout.attributes.iter().zip(expected.iter()) {
        assert_eq!(attribute.shader_location, *location);
        assert_eq!(attribute.format, *format);
        assert_eq!(attribute.offset, *offset);
    }
}

#[test]
fn the_instance_layout_reads_the_fields_of_a_staged_quad() {
    let pipeline = quads();
    let layout = &pipeline.descriptor().instance_layout;
    let quad = magenta();
    let mut staged: Vec<u8> = Vec::new();
    quad.write(&mut staged);
    let fields: [Vec<f32>; 6] = [
        vec![30.0, 30.0],
        vec![100.0, 100.0],
        vec![1.0, 0.0, 1.0, 1.0],
        vec![0.0, 0.0, 1.0, 1.0],
        vec![5.03],
        vec![3.05],
    ];
    for (attribute, field) in layout.attributes.iter().zip(fields.iter()) {
        let start = attribute.offset as usize;
        let end = start + attribute.format.size() as usize;
        assert_eq!(staged[start..end], floats_bytes(field)[..]);
    }
}

#[test]
fn the_pipeline_state_is_that_of_blended_triangles() {
    let pipeline = quads();
    let state = pipeline.descriptor().state;
    assert_eq!(state.primitive_topology, PrimitiveTopology::TriangleList);
    assert_eq!(state.front_face, FrontFace::Cw);
    assert_eq!(state.cull_mode, CullMode::Nothing);
    assert_eq!(state.depth_bias, 0);
    assert_eq!(state.depth_bias_slope_scale, 0.0f32.to_bits());
    assert_eq!(state.depth_bias_clamp, 0.0f32.to_bits());
    assert_eq!(state.format, TextureFormat::Bgra8UnormSrgb);
    assert_eq!(
        state.color_blend,
        BlendDescriptor {
            src_factor: BlendFactor::SrcAlpha,
            dst_factor: BlendFactor::OneMinusSrcAlpha,
            operation: BlendOperation::Add
        }
    );
    assert_eq!(
        state.alpha_blend,
        BlendDescriptor {
            src_factor: BlendFactor::One,
            dst_factor: BlendFactor::OneMinusSrcAlpha,
            operation: BlendOperation::Add
        }
    );
    assert_eq!(state.write_mask, ColorWrite { red: true, green: true, blue: true, alpha: true });
    assert!(!state.depth_stencil);
    assert_eq!(state.index_format, IndexFormat::Uint16);
    assert_eq!(state.sample_count, 1);
    assert_eq!(state.sample_mask, !0);
    assert!(!state.alpha_to_coverage_enabled);
}

#[test]
fn the_uniforms_are_bound_whole_to_the_vertex_stage() {
    let pipeline = quads();
    let descriptor = pipeline.descriptor();
    assert_eq!(descriptor.constants.binding, 0);
    assert_eq!(descriptor.constants.visibility, ShaderStage::Vertex);
    assert!(!descriptor.constants.dynamic);
    assert_eq!(descriptor.constants.start, 0);
    assert_eq!(descriptor.constants.end, 68);
    assert_eq!(descriptor.constants_buffer.size, 68);
    assert_eq!(
        descriptor.constants_buffer.usage,
        BufferUsage { vertex: false, index: false, uniform: true, copy_src: false, copy_dst: true }
    );
    assert_eq!(descriptor.constants_buffer.contents, Uniforms::default().to_bytes());
}

#[test]
fn the_mesh_buffers_hold_the_unit_square() {
    let pipeline = quads();
    let descriptor = pipeline.descriptor();
    assert_eq!(descriptor.vertices.size, 32);
    assert_eq!(
        descriptor.vertices.usage,
        BufferUsage { vertex: true, index: false, uniform: false, copy_src: false, copy_dst: false }
    );
    assert_eq!(
        descriptor.vertices.contents,
        floats_bytes(&[0.0, 0.0, 1.0, 0.0, 1.0, 1.0, 0.0, 1.0])
    );
    assert_eq!(descriptor.indices.size, 12);
    assert_eq!(
        descriptor.indices.usage,
        BufferUsage { vertex: false, index: true, uniform: false, copy_src: false, copy_dst: false }
    );
    assert_eq!(descriptor.indices.contents, vec![0, 0, 1, 0, 2, 0, 0, 0, 2, 0, 3, 0]);
}

#[test]
fn the_instance_buffer_has_room_for_the_capacity() {
    let pipeline = quads();
    let descriptor = pipeline.descriptor();
    assert_eq!(descriptor.instances.size, 5_600_000);
    assert_eq!(descriptor.instances.size, (MAX_INSTANCES * QUAD_SIZE) as u64);
    assert_eq!(
        descriptor.instances.usage,
        BufferUsage { vertex: true, index: false, uniform: false, copy_src: false, copy_dst: true }
    );
    assert!(descriptor.instances.contents.is_empty());
}

#[test]
fn a_new_pipeline_has_drawn_nothing() {
    let pipeline = quads();
    assert_eq!(pipeline.instance_count(), 0);
    assert_eq!(pipeline.uniforms(), Uniforms::default());
}

#[test]
fn a_vertex_shader_that_is_no_module_is_refused_first() {
    assert_eq!(
        Pipeline::new(&[1, 2, 3], &FRAGMENT_SHADER),
        Err(PipelineError::VertexShader(ShaderError::Length))
    );
    assert_eq!(
        Pipeline::new(&[1, 2, 3, 4], &FRAGMENT_SHADER),
        Err(PipelineError::VertexShader(ShaderError::MagicNumber))
    );
    assert_eq!(
        Pipeline::new(&[], &[1]),
        Err(PipelineError::VertexShader(ShaderError::MagicNumber))
    );
}

#[test]
fn a_fragment_shader_that_is_no_module_is_refused() {
    assert_eq!(
        Pipeline::new(&VERTEX_SHADER, &[1, 2, 3, 4, 5]),
        Err(PipelineError::FragmentShader(ShaderError::Length))
    );
    assert_eq!(
        Pipeline::new(&VERTEX_SHADER, &[]),
        Err(PipelineError::FragmentShader(ShaderError::MagicNumber))
    );
}

#[test]
fn one_quad_is_drawn_with_two_copies_and_one_draw_call() {
    let mut pipeline = quads();
    let transformation = Transformation::orthographic(300, 300);
    let quads = [magenta()];
    let draw = match pipeline.draw(transformation, ONE, bounds(), &quads) {
        Ok(draw) => draw,
        Err(error) => panic!("refused: {:?}", error),
    };
    assert_eq!(draw.copies.len(), 2);
    assert_eq!(draw.copies[0].destination, BufferSlot::Constants);
    assert_eq!(draw.copies[0].destination_offset, 0);
    assert_eq!(draw.copies[0].contents, Uniforms::new(transformation, ONE).to_bytes());
    assert_eq!(draw.copies[1].destination, BufferSlot::Instances);
    assert_eq!(draw.copies[1].destination_offset, 0);
    assert_eq!(
        draw.copies[1].contents,
        floats_bytes(&[30.0, 30.0, 100.0, 100.0, 1.0, 0.0, 1.0, 1.0, 0.0, 0.0, 1.0, 1.0, 5.03, 3.05])
    );
    assert_eq!(draw.pass.load_op, LoadOp::Clear);
    assert_eq!(draw.pass.store_op, StoreOp::Store);
    assert_eq!(draw.pass.clear_color, Color::White);
    assert_eq!(draw.pass.bind_group, 0);
    assert_eq!(draw.pass.vertices, BufferBinding { buffer: BufferSlot::Vertices, offset: 0 });
    assert_eq!(draw.pass.instances, BufferBinding { buffer: BufferSlot::Instances, offset: 0 });
    assert_eq!(draw.pass.indices, BufferBinding { buffer: BufferSlot::Indices, offset: 0 });
    assert_eq!(
        draw.pass.draw,
        DrawIndexed {
            indices: Span { start: 0, end: 6 },
            base_vertex: 0,
            instances: Span { start: 0, end: 1 }
        }
    );
    assert_eq!(pipeline.instance_count(), 1);
    assert_eq!(pipeline.uniforms(), Uniforms::new(transformation, ONE));
}

#[test]
fn the_instance_count_is_the_number_of_quads_given() {
    let mut pipeline = quads();
    let transformation = Transformation::orthographic(640, 480);
    for count in [2usize, 3, 17, 1000].iter() {
        let quads: Vec<Quad> = (0..*count as u32).map(numbered).collect();
        let draw = pipeline.draw(transformation, ONE, bounds(), &quads).unwrap();
        assert_eq!(draw.pass.draw.instances, Span { start: 0, end: *count as u32 });
        assert_eq!(draw.pass.draw.indices, Span { start: 0, end: 6 });
        assert_eq!(draw.copies.len(), 2);
        assert_eq!(draw.copies[1].contents, stage_instances(&quads));
        assert_eq!(draw.copies[1].contents.len(), count * QUAD_SIZE);
        assert_eq!(pipeline.instance_count(), *count);
    }
}

#[test]
fn no_quads_are_drawn_without_a_copy_of_instances() {
    let mut pipeline = quads();
    let transformation = Transformation::orthographic(300, 300);
    let draw = pipeline.draw(transformation, ONE, bounds(), &[]).unwrap();
    assert_eq!(draw.copies.len(), 1);
    assert_eq!(draw.copies[0].destination, BufferSlot::Constants);
    assert_eq!(draw.copies[0].contents.len(), UNIFORMS_SIZE);
    assert_eq!(draw.pass.draw.instances, Span { start: 0, end: 0 });
    assert_eq!(draw.pass.draw.indices, Span { start: 0, end: 6 });
    assert_eq!(draw.pass.load_op, LoadOp::Clear);
    assert_eq!(pipeline.instance_count(), 0);
}

#[test]
fn as_many_quads_as_the_buffer_holds_are_drawn() {
    let mut pipeline = quads();
    let quads: Vec<Quad> = vec![magenta(); MAX_INSTANCES];
    let draw = pipeline.draw(Transformation::identity(), ONE, bounds(), &quads).unwrap();
    assert_eq!(draw.pass.draw.instances, Span { start: 0, end: 100_000 });
    assert_eq!(draw.copies[1].contents.len() as u64, pipeline.descriptor().instances.size);
    assert_eq!(pipeline.instance_count(), MAX_INSTANCES);
}

#[test]
fn one_quad_too_many_is_refused_and_nothing_changes() {
    let mut pipeline = quads();
    let mut before = quads();
    let first = Transformation::orthographic(300, 300);
    pipeline.draw(first, 2.0f32.to_bits(), bounds(), &[magenta(), magenta()]).unwrap();
    before.draw(first, 2.0f32.to_bits(), bounds(), &[magenta(), magenta()]).unwrap();
    let quads: Vec<Quad> = vec![magenta(); MAX_INSTANCES + 1];
    let result = pipeline.draw(Transformation::identity(), ONE, bounds(), &quads);
    assert_eq!(
        result,
        Err(DrawError::TooManyInstances { given: 100_001, capacity: 100_000 })
    );
    assert_eq!(pipeline, before);
    assert_eq!(pipeline.instance_count(), 2);
    assert_eq!(pipeline.uniforms(), Uniforms::new(first, 2.0f32.to_bits()));
}

#[test]
fn the_bounds_do_not_change_what_is_drawn() {
    let mut one = quads();
    let mut other = quads();
    let transformation = Transformation::orthographic(300, 300);
    let quads = [magenta()];
    let here = one.draw(transformation, ONE, bounds(), &quads);
    let there = other.draw(
        transformation,
        ONE,
        Rectangle { x: 0, y: 0, width: 0, height: 0 },
        &quads,
    );
    assert_eq!(here, there);
}

#[test]
fn the_scale_factor_is_the_last_word_of_the_uniforms() {
    let mut pipeline = quads();
    let draw = pipeline
        .draw(Transformation::identity(), 2.5f32.to_bits(), bounds(), &[magenta()])
        .unwrap();
    assert_eq!(draw.copies[0].contents[64..68], 2.5f32.to_le_bytes());
    assert_eq!(draw.copies[0].contents[0..4], 1.0f32.to_le_bytes());
    assert_eq!(ZERO, 0);
}
