//! The presentation target: the size of a window's surface, and what follows
//! from the size.

use crate::device::Frame;
use crate::device::PresentMode;
use crate::device::SwapChainDescriptor;
use crate::device::TextureFormat;
use crate::device::TextureUsage;
use crate::transformation::orthographic_entries;
use crate::transformation::Ratio;
use crate::transformation::Transformation;
use vstd::prelude::*;

verus! {

/// Why a target was not resized: an argument is not valid.
#[derive(Clone, Copy, Debug, PartialEq, Eq, Structural)]
pub enum TargetError {
    /// The new size has no area.
    ZeroSize { width: u16, height: u16 },
}

/// A surface of `width` × `height` physical pixels, the scale factor of its
/// window, the projection of its viewport and the presentation chain that
/// its frames come from. The projection and the chain are those of the size:
/// they are replaced together, with the size, and never apart.
#[derive(Clone, Copy, Debug, PartialEq, Eq)]
pub struct Target {
    width: u16,
    height: u16,
    scale_factor: u32,
    transformation: Transformation,
    swap_chain: SwapChainDescriptor,
}

/// What a `Target` says.
pub struct TargetView {
    pub width: u16,
    pub height: u16,
    /// The binary32 encoding of the scale factor.
    pub scale_factor: u32,
    /// The entries of the projection.
    pub transformation: Seq<Ratio>,
    pub swap_chain: SwapChainDescriptor,
}

/// The presentation chain of a surface of the given size: images that are
/// rendered to, in the format that the pipeline draws, shown in step with the
/// display.
pub open spec fn swap_chain_of(width: u16, height: u16) -> SwapChainDescriptor {
    SwapChainDescriptor {
        usage: TextureUsage::OutputAttachment,
        format: TextureFormat::Bgra8UnormSrgb,
        width: width as u32,
        height: height as u32,
        present_mode: PresentMode::Vsync,
    }
}

/// The target of a surface of the given size and scale factor.
pub open spec fn target_of(width: u16, height: u16, scale_factor: u32) -> TargetView {
    TargetView {
        width,
        height,
        scale_factor,
        transformation: orthographic_entries(width, height),
        swap_chain: swap_chain_of(width, height),
    }
}

/// The projection and the chain of `target` are those of its size.
pub open spec fn consistent(target: TargetView) -> bool {
    target == target_of(target.width, target.height, target.scale_factor)
}

/// What `target` is after a request for a new size and scale factor: the
/// target of the new size where that has area, else `target` as it was.
pub open spec fn resized(target: TargetView, width: u16, height: u16, scale_factor: u32) -> TargetView {
    if width == 0 || height == 0 {
        target
    } else {
        target_of(width, height, scale_factor)
    }
}

/// The next frame of `target`: an image of the size of its chain.
pub open spec fn frame_of(target: TargetView) -> Frame {
    Frame { width: target.swap_chain.width, height: target.swap_chain.height }
}

/// Makes the presentation chain for a surface of the given size.
fn new_swap_chain(width: u16, height: u16) -> (swap_chain: SwapChainDescriptor)
    ensures
        swap_chain == swap_chain_of(width, height),
{
    SwapChainDescriptor {
        usage: TextureUsage::OutputAttachment,
        format: TextureFormat::Bgra8UnormSrgb,
        width: width as u32,
        height: height as u32,
        present_mode: PresentMode::Vsync,
    }
}

impl View for Target {
    type V = TargetView;

    closed spec fn view(&self) -> TargetView {
        TargetView {
            width: self.width,
            height: self.height,
            scale_factor: self.scale_factor,
            transformation: self.transformation@,
            swap_chain: self.swap_chain,
        }
    }
}

impl Target {
    #[verifier::type_invariant]
    spec fn well_formed(self) -> bool {
        consistent(self@)
    }

    /// The target of a surface of `width` × `height` physical pixels on a
    /// window with the scale factor `scale_factor` (the binary32 encoding of
    /// the factor).
    pub fn new(width: u16, height: u16, scale_factor: u32) -> (target: Target)
        ensures
            target@ == target_of(width, height, scale_factor),
    {
        Target {
            width,
            height,
            scale_factor,
            transformation: Transformation::orthographic(width, height),
            swap_chain: new_swap_chain(width, height),
        }
    }

    /// Follows the surface to a new size and scale factor: the size, the
    /// scale factor, the projection and the presentation chain are replaced
    /// together. Every accepted request replaces the chain, also one for the
    /// size that the target has. A size without area is refused, and the
    /// target stays as it is.
    pub fn resize(&mut self, width: u16, height: u16, scale_factor: u32) -> (result: Result<
        (),
        TargetError,
    >)
        ensures
            final(self)@ == resized(old(self)@, width, height, scale_factor),
            consistent(final(self)@),
            match result {
                Ok(_) => width > 0 && height > 0,
                Err(error) => {
                    &&& width == 0 || height == 0
                    &&& error == (TargetError::ZeroSize { width, height })
                },
            },
    {
        proof {
            use_type_invariant(&*self);
        }
        if width == 0 || height == 0 {
            return Err(TargetError::ZeroSize { width, height });
        }
        *self = Target::new(width, height, scale_factor);
        Ok(())
    }

    /// The size of the surface in physical pixels, width first.
    pub fn dimensions(&self) -> (size: (u16, u16))
        ensures
            size == (self@.width, self@.height),
    {
        (self.width, self.height)
    }

    /// The binary32 encoding of the scale factor of the window.
    pub fn scale_factor(&self) -> (scale_factor: u32)
        ensures
            scale_factor == self@.scale_factor,
    {
        self.scale_factor
    }

    /// The projection of the viewport onto clip space.
    pub fn transformation(&self) -> (transformation: Transformation)
        ensures
            transformation@ == self@.transformation,
            transformation@ == orthographic_entries(self@.width, self@.height),
    {
        proof {
            use_type_invariant(self);
        }
        self.transformation
    }

    /// The presentation chain that the frames of this target come from.
    pub fn swap_chain(&self) -> (swap_chain: SwapChainDescriptor)
        ensures
            swap_chain == self@.swap_chain,
            swap_chain == swap_chain_of(self@.width, self@.height),
    {
        proof {
            use_type_invariant(self);
        }
        self.swap_chain
    }

    /// The next frame: an image of the size of the surface. The caller waits
    /// for the image; the target is as it was.
    pub fn next_frame(&mut self) -> (frame: Frame)
        ensures
            frame == frame_of(old(self)@),
            frame.width == old(self)@.width,
            frame.height == old(self)@.height,
            final(self)@ == old(self)@,
    {
        proof {
            use_type_invariant(&*self);
        }
        Frame { width: self.swap_chain.width, height: self.swap_chain.height }
    }
}

/// After a request for a size with area, the next frame has that size,
/// whatever the target was before.
pub proof fn lemma_resize_then_next_frame(
    target: TargetView,
    width: u16,
    height: u16,
    scale_factor: u32,
)
    requires
        width > 0,
        height > 0,
    ensures
        frame_of(resized(target, width, height, scale_factor)) == (Frame {
            width: width as u32,
            height: height as u32,
        }),
        consistent(resized(target, width, height, scale_factor)),
{
}

/// The frames of a consistent target have the size of the target, and a
/// refused request changes neither.
pub proof fn lemma_frame_has_target_size(target: TargetView, width: u16, height: u16, scale_factor: u32)
    requires
        consistent(target),
    ensures
        frame_of(target) == (Frame { width: target.width as u32, height: target.height as u32 }),
        consistent(resized(target, width, height, scale_factor)),
        (width == 0 || height == 0) ==> frame_of(resized(target, width, height, scale_factor))
            == frame_of(target),
{
}

} // verus!
