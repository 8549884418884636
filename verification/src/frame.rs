//! One frame: what acquiring it can answer, and the render pass that is
//! recorded into it.

use vstd::prelude::*;

verus! {

/// What the backend answered when it was asked for the next frame.
#[derive(Clone, Copy, Debug, PartialEq, Eq)]
pub enum AcquireOutcome {
    /// A presentable target was handed out.
    Acquired,
    /// The backend gave up waiting for a target.
    Timeout,
    /// The surface has changed under the configuration.
    Outdated,
    /// The surface was invalidated and has to be configured again.
    Lost,
    /// No memory is left for a new frame.
    OutOfMemory,
}

/// Why a render call drew nothing.
#[derive(Clone, Copy, Debug, PartialEq, Eq)]
pub enum RenderError {
    /// The surface was lost. It has been reconfigured and the next frame may
    /// succeed.
    Lost,
    /// The backend is out of memory. The renderer has asked to exit.
    OutOfMemory,
    /// Any other failure. It was reported and the next frame may succeed.
    Other,
}

impl AcquireOutcome {
    /// What a render call returns on this outcome.
    pub open spec fn verdict(self) -> Result<(), RenderError> {
        match self {
            AcquireOutcome::Acquired => Ok(()),
            AcquireOutcome::Lost => Err(RenderError::Lost),
            AcquireOutcome::OutOfMemory => Err(RenderError::OutOfMemory),
            AcquireOutcome::Timeout => Err(RenderError::Other),
            AcquireOutcome::Outdated => Err(RenderError::Other),
        }
    }

    pub fn classify(&self) -> (result: Result<(), RenderError>)
        ensures
            result == self.verdict(),
    {
        match self {
            AcquireOutcome::Acquired => Ok(()),
            AcquireOutcome::Lost => Err(RenderError::Lost),
            AcquireOutcome::OutOfMemory => Err(RenderError::OutOfMemory),
            AcquireOutcome::Timeout => Err(RenderError::Other),
            AcquireOutcome::Outdated => Err(RenderError::Other),
        }
    }
}

/// A colour with each channel in hundredths, from 0 to 100.
#[derive(Clone, Copy, Debug, PartialEq, Eq)]
pub struct Color {
    pub red: u8,
    pub green: u8,
    pub blue: u8,
    pub alpha: u8,
}

impl Color {
    /// No channel is above 100 hundredths.
    pub open spec fn in_range(self) -> bool {
        self.red <= 100 && self.green <= 100 && self.blue <= 100 && self.alpha <= 100
    }

    /// The colour that every frame is cleared to: an opaque dark blue.
    pub open spec fn backdrop() -> Color {
        Color { red: 10, green: 20, blue: 30, alpha: 100 }
    }
}

/// What happens to the target's old contents when a pass begins.
#[derive(Clone, Copy, Debug, PartialEq, Eq)]
pub enum LoadOp {
    /// They are replaced by one colour.
    Clear(Color),
    /// They are kept.
    Load,
}

/// A render pass over the view of the acquired frame.
#[derive(Clone, Copy, Debug, PartialEq, Eq)]
pub struct RenderPass {
    /// Colour attachments besides the frame itself.
    pub extra_color_attachments: u32,
    pub load: LoadOp,
    /// Whether what the pass draws is stored in the target.
    pub store: bool,
    pub depth_stencil: bool,
}

impl RenderPass {
    /// The one pass of a frame: it clears the frame to the backdrop colour
    /// and keeps the result, with no other colour attachment and no depth or
    /// stencil attachment.
    pub open spec fn clear_frame() -> RenderPass {
        RenderPass {
            extra_color_attachments: 0,
            load: LoadOp::Clear(Color::backdrop()),
            store: true,
            depth_stencil: false,
        }
    }

    pub fn for_clear_frame() -> (pass: RenderPass)
        ensures
            pass == RenderPass::clear_frame(),
            pass.load matches LoadOp::Clear(color) && color.in_range(),
    {
        RenderPass {
            extra_color_attachments: 0,
            load: LoadOp::Clear(Color { red: 10, green: 20, blue: 30, alpha: 100 }),
            store: true,
            depth_stencil: false,
        }
    }
}

} // verus!
