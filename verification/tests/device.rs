use visper_graphics::device::InputStepMode;
use visper_graphics::device::VertexAttributeDescriptor;
use visper_graphics::device::VertexBufferDescriptor;
use visper_graphics::device::VertexFormat;

#[test]
fn formats_have_four_bytes_to_a_component() {
    assert_eq!(VertexFormat::Float.size(), 4);
    assert_eq!(VertexFormat::Float2.size(), 8);
    assert_eq!(VertexFormat::Float4.size(), 16);
}

#[test]
fn no_attributes_make_an_empty_layout() {
    let layout = VertexBufferDescriptor::packed(3, InputStepMode::Vertex, &[]);
    assert_eq!(
        layout,
        VertexBufferDescriptor { stride: 0, step_mode: InputStepMode::Vertex, attributes: vec![] }
    );
}

#[test]
fn attributes_are_packed_in_their_order() {
    let layout = VertexBufferDescriptor::packed(
        7,
        InputStepMode::Instance,
        &[VertexFormat::Float4, VertexFormat::Float, VertexFormat::Float2, VertexFormat::Float],
    );
    assert_eq!(layout.stride, 32);
    assert_eq!(layout.step_mode, InputStepMode::Instance);
    assert_eq!(
        layout.attributes,
        vec![
            VertexAttributeDescriptor {
                shader_location: 7,
                format: VertexFormat::Float4,
                offset: 0
            },
            VertexAttributeDescriptor {
                shader_location: 8,
                format: VertexFormat::Float,
                offset: 16
            },
            VertexAttributeDescriptor {
                shader_location: 9,
                format: VertexFormat::Float2,
                offset: 20
            },
            VertexAttributeDescriptor {
                shader_location: 10,
                format: VertexFormat::Float,
                offset: 28
            },
        ]
    );
}

#[test]
fn the_last_location_may_be_the_largest() {
    let layout =
        VertexBufferDescriptor::packed(u32::MAX - 1, InputStepMode::Vertex, &[VertexFormat::Float]);
    assert_eq!(layout.attributes[0].shader_location, u32::MAX - 1);
    assert_eq!(layout.stride, 4);
}
