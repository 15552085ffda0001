//! The renderer: one frame at a time, from a target to what is submitted.

pub mod target;

use crate::binary32::ONE;
use crate::binary32::ZERO;
use crate::device::Backends;
use crate::device::DeviceDescriptor;
use crate::device::Frame;
use crate::device::PowerPreference;
use crate::device::RequestAdapterOptions;
use crate::device::SwapChainDescriptor;
use crate::device::TextureUsage;
use crate::primitive::quad::pipeline_of;
use crate::primitive::quad::quad_pipeline;
use crate::primitive::quad::recorded;
use crate::primitive::quad::uniforms_words;
use crate::primitive::quad::valid_pipeline;
use crate::primitive::quad::Draw;
use crate::primitive::quad::DrawView;
use crate::primitive::quad::Pipeline;
use crate::primitive::quad::PipelineError;
use crate::primitive::quad::PipelineView;
use crate::primitive::quad::Quad;
use crate::renderer::target::frame_of;
use crate::renderer::target::resized;
use crate::renderer::target::swap_chain_of;
use crate::renderer::target::Target;
use crate::renderer::target::TargetError;
use crate::renderer::target::TargetView;
use vstd::prelude::*;

verus! {

/// The adapter that the renderer asks for: the default one, from whichever
/// graphics interface has one.
pub open spec fn adapter_request() -> RequestAdapterOptions {
    RequestAdapterOptions {
        power_preference: PowerPreference::Default,
        backends: Backends { vulkan: true, gl: true, metal: true, dx12: true, dx11: true },
    }
}

/// The device that the renderer asks for: no extensions, two bind groups.
pub open spec fn device_request() -> DeviceDescriptor {
    DeviceDescriptor { anisotropic_filtering: false, max_bind_groups: 2 }
}

/// The quad that every frame shows: 100 × 100 at `(30, 30)`, magenta, with a
/// blue border 3.05 wide and corners of radius 5.03.
pub open spec fn demonstration_quad() -> Quad {
    Quad {
        position: [0x41f0_0000, 0x41f0_0000],
        scale: [0x42c8_0000, 0x42c8_0000],
        color: [ONE, ZERO, ONE, ONE],
        border_color: [ZERO, ZERO, ONE, ONE],
        border_radius: 0x40a0_f5c3,
        border_width: 0x4043_3333,
    }
}

/// What one frame takes: the frame is acquired from the presentation chain
/// of the target, one command encoder is created, `draw` is recorded on it
/// with the frame as the target, and the finished commands are submitted to
/// the queue.
#[derive(Clone, Debug, PartialEq, Eq)]
pub struct Submission {
    pub frame: Frame,
    pub draw: Draw,
}

/// What a `Submission` says.
pub struct SubmissionView {
    pub frame: Frame,
    pub draw: DrawView,
}

impl View for Submission {
    type V = SubmissionView;

    open spec fn view(&self) -> SubmissionView {
        SubmissionView { frame: self.frame, draw: self.draw@ }
    }
}

/// The device that is asked for, and the pipeline that draws on it.
#[derive(Debug, PartialEq, Eq)]
pub struct Renderer {
    adapter: RequestAdapterOptions,
    device: DeviceDescriptor,
    quad_pipeline: Pipeline,
}

/// What a `Renderer` says.
pub struct RendererView {
    pub adapter: RequestAdapterOptions,
    pub device: DeviceDescriptor,
    pub quad_pipeline: PipelineView,
}

impl View for Renderer {
    type V = RendererView;

    closed spec fn view(&self) -> RendererView {
        RendererView {
            adapter: self.adapter,
            device: self.device,
            quad_pipeline: self.quad_pipeline@,
        }
    }
}

/// The renderer for the given shaders, or the reason why there is none.
pub open spec fn renderer_of(vertex_shader: Seq<u8>, fragment_shader: Seq<u8>) -> Result<
    RendererView,
    PipelineError,
> {
    match pipeline_of(vertex_shader, fragment_shader) {
        Ok(quad_pipeline) => Ok(
            RendererView { adapter: adapter_request(), device: device_request(), quad_pipeline },
        ),
        Err(error) => Err(error),
    }
}

/// What holds of a renderer from its making on: it asks for the adapter and
/// the device of its policy, and its pipeline is valid.
pub open spec fn valid_renderer(renderer: RendererView) -> bool {
    &&& renderer.adapter == adapter_request()
    &&& renderer.device == device_request()
    &&& valid_pipeline(renderer.quad_pipeline)
}

impl Renderer {
    /// The adapter to ask for.
    pub fn adapter(&self) -> (adapter: RequestAdapterOptions)
        ensures
            adapter == self@.adapter,
    {
        self.adapter
    }

    /// The device to ask the adapter for.
    pub fn device(&self) -> (device: &DeviceDescriptor)
        ensures
            *device == self@.device,
    {
        &self.device
    }

    /// The pipeline that draws quads.
    pub fn quad_pipeline(&self) -> (pipeline: &Pipeline)
        ensures
            pipeline@ == self@.quad_pipeline,
            valid_pipeline(pipeline@),
    {
        let pipeline = &self.quad_pipeline;
        proof {
            use_type_invariant(pipeline);
        }
        pipeline
    }

    /// The renderer with one pipeline for quads, made of the given shaders,
    /// each the bytes of a SPIR-V module.
    pub fn new(vertex_shader: &[u8], fragment_shader: &[u8]) -> (result: Result<
        Renderer,
        PipelineError,
    >)
        ensures
            match result {
                Ok(renderer) => {
                    &&& renderer_of(vertex_shader@, fragment_shader@) == Ok::<
                        RendererView,
                        PipelineError,
                    >(renderer@)
                    &&& valid_renderer(renderer@)
                },
                Err(error) => renderer_of(vertex_shader@, fragment_shader@) == Err::<
                    RendererView,
                    PipelineError,
                >(error),
            },
    {
        let adapter = RequestAdapterOptions {
            power_preference: PowerPreference::Default,
            backends: Backends { vulkan: true, gl: true, metal: true, dx12: true, dx11: true },
        };
        let device = DeviceDescriptor { anisotropic_filtering: false, max_bind_groups: 2 };
        match Pipeline::new(vertex_shader, fragment_shader) {
            Ok(quad_pipeline) => Ok(Renderer { adapter, device, quad_pipeline }),
            Err(error) => Err(error),
        }
    }

    /// One frame of `target`: the next frame of the target, and on it the
    /// demonstration quad, seen through the projection of the target at its
    /// scale factor. The target is as it was; the pipeline has drawn one
    /// quad.
    pub fn draw(&mut self, target: &mut Target) -> (submission: Submission)
        ensures
            final(target)@ == old(target)@,
            submission@ == submission_of(old(target)@),
            final(self)@ == after_frame(old(self)@, old(target)@),
            valid_renderer(old(self)@) ==> valid_renderer(final(self)@),
    {
        let scale_factor = target.scale_factor();
        let transformation = target.transformation();
        let frame = target.next_frame();
        let quad = Quad {
            position: [0x41f0_0000, 0x41f0_0000],
            scale: [0x42c8_0000, 0x42c8_0000],
            color: [ONE, ZERO, ONE, ONE],
            border_color: [ZERO, ZERO, ONE, ONE],
            border_radius: 0x40a0_f5c3,
            border_width: 0x4043_3333,
        };
        proof {
            let expected = demonstration_quad();
            assert(quad.position =~= expected.position);
            assert(quad.scale =~= expected.scale);
            assert(quad.color =~= expected.color);
            assert(quad.border_color =~= expected.border_color);
        }
        let quads: [Quad; 1] = [quad];
        assert(quads@ =~= seq![demonstration_quad()]);
        let draw = self.quad_pipeline.record(transformation, scale_factor, quads.as_slice());
        Submission { frame, draw }
    }
}

/// What the host window reports.
#[derive(Clone, Copy, Debug, PartialEq, Eq, Structural)]
pub enum Event {
    /// The window is asked to close.
    CloseRequested,
    /// The surface has a new size in physical pixels, and the window the
    /// scale factor with the given binary32 encoding.
    Resized { width: u16, height: u16, scale_factor: u32 },
    /// The window wants its contents drawn.
    RedrawRequested,
    /// A message from outside the window system.
    UserEvent,
}

/// What the event loop does after an event.
#[derive(Clone, Debug, PartialEq, Eq)]
pub enum Response {
    /// Leave the loop.
    Exit,
    /// Wait for the next event.
    Wait,
    /// Replace the presentation chain of the surface by this one, before the
    /// next frame is acquired.
    Resized(SwapChainDescriptor),
    /// The new size was refused; the presentation chain stays.
    Refused(TargetError),
    /// Carry out this frame.
    Frame(Submission),
}

/// What a `Response` says.
pub enum ResponseView {
    Exit,
    Wait,
    Resized(SwapChainDescriptor),
    Refused(TargetError),
    Frame(SubmissionView),
}

impl View for Response {
    type V = ResponseView;

    open spec fn view(&self) -> ResponseView {
        match self {
            Response::Exit => ResponseView::Exit,
            Response::Wait => ResponseView::Wait,
            Response::Resized(swap_chain) => ResponseView::Resized(*swap_chain),
            Response::Refused(error) => ResponseView::Refused(*error),
            Response::Frame(submission) => ResponseView::Frame(submission@),
        }
    }
}

/// The frame that a renderer submits for `target`.
pub open spec fn submission_of(target: TargetView) -> SubmissionView {
    SubmissionView {
        frame: frame_of(target),
        draw: recorded(target.transformation, target.scale_factor, seq![demonstration_quad()]),
    }
}

/// What `renderer` is after a frame for `target`: its pipeline holds the
/// uniforms of the target and has drawn one quad.
pub open spec fn after_frame(renderer: RendererView, target: TargetView) -> RendererView {
    RendererView {
        quad_pipeline: PipelineView {
            uniforms: uniforms_words(target.transformation, target.scale_factor),
            instance_count: 1,
            ..renderer.quad_pipeline
        },
        ..renderer
    }
}

/// The response to `event` for a target that is `target` before the event.
pub open spec fn response_to(target: TargetView, event: Event) -> ResponseView {
    match event {
        Event::CloseRequested => ResponseView::Exit,
        Event::Resized { width, height, scale_factor } => if width == 0 || height == 0 {
            ResponseView::Refused(TargetError::ZeroSize { width, height })
        } else {
            ResponseView::Resized(resized(target, width, height, scale_factor).swap_chain)
        },
        Event::RedrawRequested => ResponseView::Frame(submission_of(target)),
        Event::UserEvent => ResponseView::Wait,
    }
}

impl Renderer {
    /// Answers one event of the host window: a new size goes to the target,
    /// a request to redraw becomes a frame, a request to close ends the loop,
    /// and anything else is waited out.
    pub fn handle(&mut self, target: &mut Target, event: Event) -> (response: Response)
        ensures
            response@ == response_to(old(target)@, event),
            final(target)@ == (match event {
                Event::Resized { width, height, scale_factor } => resized(
                    old(target)@,
                    width,
                    height,
                    scale_factor,
                ),
                _ => old(target)@,
            }),
            final(self)@ == (match event {
                Event::RedrawRequested => after_frame(old(self)@, old(target)@),
                _ => old(self)@,
            }),
            valid_renderer(old(self)@) ==> valid_renderer(final(self)@),
    {
        match event {
            Event::CloseRequested => Response::Exit,
            Event::Resized { width, height, scale_factor } => {
                match target.resize(width, height, scale_factor) {
                    Ok(_) => Response::Resized(target.swap_chain()),
                    Err(error) => Response::Refused(error),
                }
            },
            Event::RedrawRequested => Response::Frame(self.draw(target)),
            Event::UserEvent => Response::Wait,
        }
    }
}

/// The pipeline draws in the format of the frames of every target, and the
/// frames of a target are made to be drawn on.
pub proof fn lemma_pipeline_draws_on_frames(
    vertex: Seq<u32>,
    fragment: Seq<u32>,
    width: u16,
    height: u16,
)
    ensures
        quad_pipeline(vertex, fragment).state.format == swap_chain_of(width, height).format,
        swap_chain_of(width, height).usage == TextureUsage::OutputAttachment,
{
}

} // verus!
