use visper_graphics::binary32::ONE;
use visper_graphics::device::Backends;
use visper_graphics::device::BufferSlot;
use visper_graphics::device::DeviceDescriptor;
use visper_graphics::device::Frame;
use visper_graphics::device::PowerPreference;
use visper_graphics::device::PresentMode;
use visper_graphics::device::RequestAdapterOptions;
use visper_graphics::device::Span;
use visper_graphics::device::SwapChainDescriptor;
use visper_graphics::device::TextureFormat;
use visper_graphics::device::TextureUsage;
use visper_graphics::primitive::quad::Pipeline;
use visper_graphics::primitive::quad::PipelineError;
use visper_graphics::primitive::quad::Quad;
use visper_graphics::primitive::quad::Uniforms;
use visper_graphics::renderer::target::Target;
use visper_graphics::renderer::target::TargetError;
use visper_graphics::renderer::Event;
use visper_graphics::renderer::Renderer;
use visper_graphics::renderer::Response;
use visper_graphics::renderer::Submission;
use visper_graphics::shader::ShaderError;
use visper_graphics::transformation::Transformation;

const VERTEX_SHADER: [u8; 8] = [0x03, 0x02, 0x23, 0x07, 0x01, 0x00, 0x00, 0x00];

const FRAGMENT_SHADER: [u8; 8] = [0x03, 0x02, 0x23, 0x07, 0x02, 0x00, 0x00, 0x00];

fn renderer() -> Renderer {
    match Renderer::new(&VERTEX_SHADER, &FRAGMENT_SHADER) {
        Ok(renderer) => renderer,
        Err(error) => panic!("no renderer: {:?}", error),
    }
}

fn frame(renderer: &mut Renderer, target: &mut Target) -> Submission {
    renderer.draw(target)
}

fn word(bytes: &[u8], index: usize) -> f32 {
    f32::from_le_bytes([
        bytes[4 * index],
        bytes[4 * index + 1],
        bytes[4 * index + 2],
        bytes[4 * index + 3],
    ])
}

/// The pixel that the point `(x, y)` of the viewport lands on, for the
/// uniforms `uniforms` and a frame of the given size.
fn pixel(uniforms: &[u8], frame: Frame, x: f32, y: f32) -> (f32, f32) {
    let clip_x = word(uniforms, 0) * x + word(uniforms, 4) * y + word(uniforms, 12);
    let clip_y = word(uniforms, 1) * x + word(uniforms, 5) * y + word(uniforms, 13);
    ((clip_x + 1.0) / 2.0 * frame.width as f32, (clip_y + 1.0) / 2.0 * frame.height as f32)
}

fn close(a: (f32, f32), b: (f32, f32)) -> bool {
    (a.0 - b.0).abs() < 1e-3 && (a.1 - b.1).abs() < 1e-3
}

#[test]
fn the_renderer_asks_for_the_default_adapter_and_a_plain_device() {
    let renderer = renderer();
    assert_eq!(
        renderer.adapter(),
        RequestAdapterOptions {
            power_preference: PowerPreference::Default,
            backends: Backends { vulkan: true, gl: true, metal: true, dx12: true, dx11: true }
        }
    );
    assert_eq!(
        *renderer.device(),
        DeviceDescriptor { anisotropic_filtering: false, max_bind_groups: 2 }
    );
}

#[test]
fn the_renderer_has_one_new_pipeline() {
    let renderer = renderer();
    let pipeline = match Pipeline::new(&VERTEX_SHADER, &FRAGMENT_SHADER) {
        Ok(pipeline) => pipeline,
        Err(error) => panic!("no pipeline: {:?}", error),
    };
    assert_eq!(*renderer.quad_pipeline(), pipeline);
    assert_eq!(renderer.quad_pipeline().instance_count(), 0);
}

#[test]
fn the_renderer_is_not_made_of_shaders_that_are_no_modules() {
    assert_eq!(
        Renderer::new(&[0, 1, 2], &FRAGMENT_SHADER),
        Err(PipelineError::VertexShader(ShaderError::Length))
    );
    assert_eq!(
        Renderer::new(&VERTEX_SHADER, &[0, 1, 2, 3]),
        Err(PipelineError::FragmentShader(ShaderError::MagicNumber))
    );
}

#[test]
fn a_frame_at_300_by_300_shows_the_magenta_quad() {
    let mut renderer = renderer();
    let mut target = Target::new(300, 300, ONE);
    let submission = frame(&mut renderer, &mut target);
    assert_eq!(submission.frame, Frame { width: 300, height: 300 });
    let draw = &submission.draw;
    assert_eq!(draw.copies.len(), 2);
    assert_eq!(draw.copies[0].destination, BufferSlot::Constants);
    assert_eq!(
        draw.copies[0].contents,
        Uniforms::new(Transformation::orthographic(300, 300), ONE).to_bytes()
    );
    assert_eq!(draw.copies[1].destination, BufferSlot::Instances);
    let quad = match Quad::read(&draw.copies[1].contents, 0) {
        Some(quad) => quad,
        None => panic!("no quad was staged"),
    };
    assert_eq!(quad.position, [30.0f32.to_bits(), 30.0f32.to_bits()]);
    assert_eq!(quad.scale, [100.0f32.to_bits(), 100.0f32.to_bits()]);
    assert_eq!(
        quad.color,
        [1.0f32.to_bits(), 0.0f32.to_bits(), 1.0f32.to_bits(), 1.0f32.to_bits()]
    );
    assert_eq!(
        quad.border_color,
        [0.0f32.to_bits(), 0.0f32.to_bits(), 1.0f32.to_bits(), 1.0f32.to_bits()]
    );
    assert_eq!(quad.border_radius, 5.03f32.to_bits());
    assert_eq!(quad.border_width, 3.05f32.to_bits());
    assert_eq!(draw.pass.draw.instances, Span { start: 0, end: 1 });
    assert_eq!(draw.pass.draw.indices, Span { start: 0, end: 6 });
    let uniforms = &draw.copies[0].contents;
    assert!(close(pixel(uniforms, submission.frame, 30.0, 30.0), (30.0, 30.0)));
    assert!(close(pixel(uniforms, submission.frame, 130.0, 130.0), (130.0, 130.0)));
    assert_eq!(renderer.quad_pipeline().instance_count(), 1);
    assert_eq!(target, Target::new(300, 300, ONE));
}

#[test]
fn a_frame_after_a_resize_is_drawn_through_the_new_projection() {
    let mut renderer = renderer();
    let mut target = Target::new(300, 300, ONE);
    let before = frame(&mut renderer, &mut target);
    assert_eq!(target.resize(600, 400, ONE), Ok(()));
    let after = frame(&mut renderer, &mut target);
    assert_eq!(after.frame, Frame { width: 600, height: 400 });
    assert_eq!(
        after.draw.copies[0].contents,
        Uniforms::new(Transformation::orthographic(600, 400), ONE).to_bytes()
    );
    assert_ne!(after.draw.copies[0].contents, before.draw.copies[0].contents);
    assert_eq!(after.draw.copies[1], before.draw.copies[1]);
    assert_eq!(after.draw.pass, before.draw.pass);
    let uniforms = &after.draw.copies[0].contents;
    assert!(close(pixel(uniforms, after.frame, 30.0, 30.0), (30.0, 30.0)));
    assert!(close(pixel(uniforms, after.frame, 130.0, 130.0), (130.0, 130.0)));
    assert!((word(uniforms, 0) * 30.0 - 1.0 - (-0.9)).abs() < 1e-6);
    assert!((word(uniforms, 5) * 130.0 - 1.0 - (-0.35)).abs() < 1e-6);
    assert!(close(pixel(uniforms, after.frame, 600.0, 400.0), (600.0, 400.0)));
}

#[test]
fn every_frame_is_the_same_while_the_target_stays() {
    let mut renderer = renderer();
    let mut target = Target::new(300, 300, 1.25f32.to_bits());
    let first = frame(&mut renderer, &mut target);
    let second = frame(&mut renderer, &mut target);
    assert_eq!(first, second);
    assert_eq!(first.draw.copies[0].contents[64..68], 1.25f32.to_le_bytes());
}

#[test]
fn a_request_to_close_ends_the_loop() {
    let mut renderer = renderer();
    let mut target = Target::new(300, 300, ONE);
    let before = self::renderer();
    assert_eq!(renderer.handle(&mut target, Event::CloseRequested), Response::Exit);
    assert_eq!(renderer, before);
    assert_eq!(target, Target::new(300, 300, ONE));
}

#[test]
fn a_new_size_goes_to_the_target() {
    let mut renderer = renderer();
    let mut target = Target::new(300, 300, ONE);
    let before = self::renderer();
    let response = renderer.handle(
        &mut target,
        Event::Resized { width: 600, height: 400, scale_factor: 2.0f32.to_bits() },
    );
    assert_eq!(
        response,
        Response::Resized(SwapChainDescriptor {
            usage: TextureUsage::OutputAttachment,
            format: TextureFormat::Bgra8UnormSrgb,
            width: 600,
            height: 400,
            present_mode: PresentMode::Vsync
        })
    );
    assert_eq!(target, Target::new(600, 400, 2.0f32.to_bits()));
    assert_eq!(renderer, before);
}

#[test]
fn a_new_size_without_area_is_refused() {
    let mut renderer = renderer();
    let mut target = Target::new(300, 300, ONE);
    let response =
        renderer.handle(&mut target, Event::Resized { width: 0, height: 400, scale_factor: ONE });
    assert_eq!(response, Response::Refused(TargetError::ZeroSize { width: 0, height: 400 }));
    assert_eq!(target, Target::new(300, 300, ONE));
}

#[test]
fn a_request_to_redraw_becomes_a_frame() {
    let mut renderer = renderer();
    let mut other = self::renderer();
    let mut target = Target::new(300, 300, ONE);
    let response = renderer.handle(&mut target, Event::RedrawRequested);
    let expected = frame(&mut other, &mut target);
    assert_eq!(response, Response::Frame(expected));
    assert_eq!(renderer, other);
}

#[test]
fn a_message_from_outside_is_waited_out() {
    let mut renderer = renderer();
    let mut target = Target::new(300, 300, ONE);
    let before = self::renderer();
    assert_eq!(renderer.handle(&mut target, Event::UserEvent), Response::Wait);
    assert_eq!(renderer, before);
    assert_eq!(target, Target::new(300, 300, ONE));
}

#[test]
fn a_resize_and_a_redraw_give_a_frame_of_the_new_size() {
    let mut renderer = renderer();
    let mut target = Target::new(300, 300, ONE);
    renderer.handle(&mut target, Event::Resized { width: 800, height: 600, scale_factor: ONE });
    match renderer.handle(&mut target, Event::RedrawRequested) {
        Response::Frame(submission) => {
            assert_eq!(submission.frame, Frame { width: 800, height: 600 });
            assert_eq!(
                submission.draw.copies[0].contents,
                Uniforms::new(Transformation::orthographic(800, 600), ONE).to_bytes()
            );
        }
        other => panic!("no frame: {:?}", other),
    }
}
