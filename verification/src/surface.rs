//! Plain descriptions of the presentation surface: its size, the
//! configuration of its swap chain, the ways acquiring a frame can fail, and
//! the pass that is recorded for a frame.

use vstd::prelude::*;
use crate::colour::Colour;

verus! {

/// A size in physical pixels.
#[derive(Clone, Copy, Debug, PartialEq, Eq, Structural)]
pub struct PhysicalSize {
    pub width: u32,
    pub height: u32,
}

impl PhysicalSize {
    /// The size covers no pixel at all, as that of a minimised window does.
    pub open spec fn spec_is_degenerate(self) -> bool {
        self.width == 0 || self.height == 0
    }

    /// Tells whether the size covers no pixel at all.
    #[verifier::when_used_as_spec(spec_is_degenerate)]
    pub fn is_degenerate(self) -> (degenerate: bool)
        ensures
            degenerate == self.spec_is_degenerate(),
    {
        self.width == 0 || self.height == 0
    }
}

/// Texel formats that every swap chain is guaranteed to support.
#[derive(Clone, Copy, Debug, PartialEq, Eq, Structural)]
pub enum TextureFormat {
    Bgra8Unorm,
    Bgra8UnormSrgb,
}

/// How finished frames are handed to the display.
#[derive(Clone, Copy, Debug, PartialEq, Eq, Structural)]
pub enum PresentMode {
    /// Present at once, without waiting for the vertical blank.
    Immediate,
    /// Wait for the vertical blank, keeping only the newest frame.
    Mailbox,
    /// Wait for the vertical blank, queueing frames in order.
    Fifo,
}

/// The configuration a swap chain is created from. Its usage is not part of
/// it: a swap chain is always an output attachment.
#[derive(Clone, Copy, Debug, PartialEq, Eq, Structural)]
pub struct SwapChainDescriptor {
    pub format: TextureFormat,
    pub width: u32,
    pub height: u32,
    pub present_mode: PresentMode,
}

impl SwapChainDescriptor {
    /// The width and height of the swap chain are those of `size`.
    pub open spec fn covers(self, size: PhysicalSize) -> bool {
        self.width == size.width && self.height == size.height
    }

    /// The same configuration at another size.
    pub open spec fn resized(self, size: PhysicalSize) -> SwapChainDescriptor {
        SwapChainDescriptor {
            format: self.format,
            width: size.width,
            height: size.height,
            present_mode: self.present_mode,
        }
    }
}

/// Why the next frame of a swap chain could not be acquired.
#[derive(Clone, Copy, Debug, PartialEq, Eq, Structural)]
pub enum SwapChainError {
    /// Acquiring the frame timed out.
    Timeout,
    /// The surface changed under the swap chain.
    Outdated,
    /// The swap chain was lost and has to be created again.
    Lost,
    /// No memory is left for a new frame.
    OutOfMemory,
}

/// The single render pass of a frame: the colour attachment is cleared, and
/// nothing is drawn.
#[derive(Clone, Copy, Debug, PartialEq, Eq, Structural)]
pub struct RenderPass {
    /// The colour every pixel of the frame is cleared to.
    pub clear_colour: Colour,
    /// Whether the cleared attachment is written back to the frame.
    pub store: bool,
}

} // verus!
