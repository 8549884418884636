//! Surface lifecycle and frame protocol of a windowed clear-colour renderer.
//!
//! The crate holds the decisions of such a renderer as a verified state
//! machine. It never touches a window or a graphics device itself: every
//! entry point takes what the platform reported as plain values and answers
//! with what the caller must carry out, in order.

pub mod action;
pub mod device;
pub mod event;
pub mod frame;
pub mod invariants;
pub mod size;
pub mod state;
pub mod surface;

pub use crate::action::Action;
pub use crate::device::{
    AdapterSelection, DeviceContext, DeviceRequest, Handshake, InitError, LimitsProfile, Phase,
    PowerProfile, Reply, Runtime, Step,
};
pub use crate::event::{Event, Key, KeyState, WindowEvent};
pub use crate::frame::{AcquireOutcome, Color, LoadOp, RenderError, RenderPass};
pub use crate::size::Size;
pub use crate::state::{run, State};
pub use crate::surface::{PresentMode, PresentationSurface, SurfaceConfig, UsageFlags};
