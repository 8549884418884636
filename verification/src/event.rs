//! What reaches the renderer from outside.

use vstd::prelude::*;
use crate::frame::AcquireOutcome;
use crate::size::Size;

verus! {

/// The keys that the renderer tells apart.
#[derive(Clone, Copy, Debug, PartialEq, Eq)]
pub enum Key {
    Escape,
    Other,
}

#[derive(Clone, Copy, Debug, PartialEq, Eq)]
pub enum KeyState {
    Pressed,
    Released,
}

/// Something that happened to a window.
#[derive(Clone, Copy, Debug, PartialEq, Eq)]
pub enum WindowEvent {
    /// The user asked to close the window.
    CloseRequested,
    /// A key went down or up. `key` is `None` where the platform could not
    /// name it.
    KeyboardInput { state: KeyState, key: Option<Key> },
    /// The window has a new extent.
    Resized(Size),
    /// The window's scale factor changed, and with it the extent, which is
    /// given.
    ScaleFactorChanged(Size),
    /// Anything else.
    Other,
}

impl WindowEvent {
    /// The event asks the renderer to stop: a close request, or escape going
    /// down.
    pub open spec fn asks_to_exit(self) -> bool {
        match self {
            WindowEvent::CloseRequested => true,
            WindowEvent::KeyboardInput { state, key } => state == KeyState::Pressed && key == Some(
                Key::Escape,
            ),
            _ => false,
        }
    }

    /// The extent that the event brings, where it brings one.
    pub open spec fn new_extent(self) -> Option<Size> {
        match self {
            WindowEvent::Resized(size) => Some(size),
            WindowEvent::ScaleFactorChanged(size) => Some(size),
            _ => None,
        }
    }

    /// Tells whether the event asks the renderer to stop.
    pub fn requests_exit(&self) -> (yes: bool)
        ensures
            yes == self.asks_to_exit(),
    {
        match self {
            WindowEvent::CloseRequested => true,
            WindowEvent::KeyboardInput { state, key } => {
                match (state, key) {
                    (KeyState::Pressed, Some(Key::Escape)) => true,
                    _ => false,
                }
            },
            _ => false,
        }
    }
}

/// One delivery of the event dispatcher, or the backend's answer to a frame
/// request.
#[derive(Clone, Copy, Debug, PartialEq, Eq)]
pub enum Event {
    /// A window event. `own_window` says whether it is about the window that
    /// the renderer draws to.
    Window { own_window: bool, event: WindowEvent },
    /// The tick that asks a window to be drawn again.
    RedrawRequested { own_window: bool },
    /// All events of this cycle have been delivered.
    MainEventsCleared,
    /// The backend answered the frame request of the last redraw.
    FrameAcquired(AcquireOutcome),
    /// Anything else.
    Other,
}

impl Event {
    /// The event asks the renderer to stop: it is about the renderer's own
    /// window and is a close request or escape going down.
    pub open spec fn asks_to_exit(self) -> bool {
        match self {
            Event::Window { own_window, event } => own_window && event.asks_to_exit(),
            _ => false,
        }
    }

    /// The extent that the event brings for the renderer's own window, where
    /// it brings one.
    pub open spec fn new_extent(self) -> Option<Size> {
        match self {
            Event::Window { own_window, event } => if own_window {
                event.new_extent()
            } else {
                None
            },
            _ => None,
        }
    }
}

} // verus!
