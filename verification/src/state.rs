//! The renderer's state and its reactions: to a resize, to the backend's
//! answer to a frame request, and to every event of the dispatcher.

use vstd::prelude::*;
use crate::action::Action;
use crate::device::DeviceContext;
use crate::event::{Event, WindowEvent};
use crate::frame::{AcquireOutcome, RenderError, RenderPass};
use crate::size::Size;
use crate::surface::{PresentationSurface, SurfaceConfig, SurfaceModel};

verus! {

/// The mathematical content of a [`State`].
pub struct StateModel<F> {
    pub surface: SurfaceModel<F>,
    /// The renderer has asked to leave the event loop.
    pub exit_requested: bool,
}

impl<F> StateModel<F> {
    pub open spec fn wf(self) -> bool {
        self.surface.wf()
    }

    /// The state that a renderer starts in.
    pub open spec fn started(formats: Seq<F>, size: Size) -> StateModel<F>
        recommends
            formats.len() > 0,
    {
        StateModel { surface: SurfaceModel::configured(formats, size), exit_requested: false }
    }

    /// The state after the window was resized to `new_size`.
    pub open spec fn resized(self, new_size: Size) -> StateModel<F> {
        StateModel { surface: self.surface.resized(new_size), ..self }
    }

    /// What a resize to `new_size` asks for: the surface is configured again
    /// where the extent is not empty, and nothing happens where it is.
    pub open spec fn resize_actions(self, new_size: Size) -> Seq<Action<F>> {
        match self.surface.resize_submission(new_size) {
            Some(config) => seq![Action::ConfigureSurface(config)],
            None => seq![],
        }
    }

    /// The state after a render call on `outcome`. A lost surface is resized
    /// to its last known extent, and without memory the renderer asks to
    /// exit.
    pub open spec fn rendered(self, outcome: AcquireOutcome) -> StateModel<F> {
        match outcome {
            AcquireOutcome::Lost => self.resized(self.surface.size),
            AcquireOutcome::OutOfMemory => StateModel { exit_requested: true, ..self },
            _ => self,
        }
    }

    /// What a render call on `outcome` asks for. An acquired frame is
    /// recorded, submitted and presented, once each and in this order. On
    /// any other outcome the frame is given up.
    pub open spec fn render_actions(self, outcome: AcquireOutcome) -> Seq<Action<F>> {
        match outcome {
            AcquireOutcome::Acquired => seq![
                Action::Record(RenderPass::clear_frame()),
                Action::Submit,
                Action::Present,
            ],
            AcquireOutcome::Lost => self.resize_actions(self.surface.size),
            AcquireOutcome::OutOfMemory => seq![Action::Exit],
            AcquireOutcome::Timeout => seq![Action::Report(outcome)],
            AcquireOutcome::Outdated => seq![Action::Report(outcome)],
        }
    }

    /// The state after `event`. Once the renderer has asked to exit, no
    /// event changes it.
    pub open spec fn handled(self, event: Event) -> StateModel<F> {
        if self.exit_requested {
            self
        } else {
            match event {
                Event::Window { own_window, event } => {
                    if !own_window {
                        self
                    } else if event.asks_to_exit() {
                        StateModel { exit_requested: true, ..self }
                    } else {
                        match event.new_extent() {
                            Some(size) => self.resized(size),
                            None => self,
                        }
                    }
                },
                Event::FrameAcquired(outcome) => self.rendered(outcome),
                _ => self,
            }
        }
    }

    /// What `event` asks for. Once the renderer has asked to exit, no event
    /// asks for anything.
    pub open spec fn handle_actions(self, event: Event) -> Seq<Action<F>> {
        if self.exit_requested {
            seq![]
        } else {
            match event {
                Event::Window { own_window, event } => {
                    if !own_window {
                        seq![]
                    } else if event.asks_to_exit() {
                        seq![Action::Exit]
                    } else {
                        match event.new_extent() {
                            Some(size) => self.resize_actions(size),
                            None => seq![],
                        }
                    }
                },
                Event::RedrawRequested { own_window } => {
                    if own_window {
                        seq![Action::AcquireFrame]
                    } else {
                        seq![]
                    }
                },
                Event::MainEventsCleared => seq![Action::RequestRedraw],
                Event::FrameAcquired(outcome) => self.render_actions(outcome),
                Event::Other => seq![],
            }
        }
    }

    /// The state after a run of events, oldest first.
    pub open spec fn after(self, events: Seq<Event>) -> StateModel<F>
        decreases events.len(),
    {
        if events.len() == 0 {
            self
        } else {
            self.after(events.drop_last()).handled(events.last())
        }
    }

    /// Everything that a run of events asks for, in order.
    pub open spec fn trace(self, events: Seq<Event>) -> Seq<Action<F>>
        decreases events.len(),
    {
        if events.len() == 0 {
            seq![]
        } else {
            self.trace(events.drop_last()) + self.after(events.drop_last()).handle_actions(
                events.last(),
            )
        }
    }
}

/// The state of one renderer: the surface of its window and whether it has
/// asked to exit.
#[derive(Debug, PartialEq, Eq)]
pub struct State<F> {
    surface: PresentationSurface<F>,
    exit_requested: bool,
}

impl<F> View for State<F> {
    type V = StateModel<F>;

    closed spec fn view(&self) -> StateModel<F> {
        StateModel { surface: self.surface@, exit_requested: self.exit_requested }
    }
}

impl<F: Copy> State<F> {
    /// Starts a renderer on a device. `formats` is what the adapter reports
    /// as supported for the window's surface, in the adapter's order, and
    /// `size` is the window's extent. The returned action configures the
    /// surface and has to be carried out before the first frame.
    ///
    /// A surface that the adapter has no format for cannot be drawn to, and
    /// neither can an empty window.
    pub fn new(device: &DeviceContext, formats: &[F], size: Size) -> (started: (
        State<F>,
        Vec<Action<F>>,
    ))
        requires
            formats@.len() > 0,
            size.drawable(),
        ensures
            started.0@ == StateModel::started(formats@, size),
            started.0@.wf(),
            started.1@ == seq![
                Action::ConfigureSurface(SurfaceConfig::initial(formats@[0], size)),
            ],
    {
        let surface = PresentationSurface::configure(device, formats, size);
        let mut actions: Vec<Action<F>> = Vec::new();
        actions.push(Action::ConfigureSurface(surface.config()));
        (State { surface, exit_requested: false }, actions)
    }

    /// Follows the window to `new_size`. An empty extent, as a minimised
    /// window reports it, is passed over: nothing changes and nothing is
    /// asked for. Any other extent becomes the extent of the configuration,
    /// and the returned action configures the surface with it.
    pub fn resize(&mut self, new_size: Size) -> (actions: Vec<Action<F>>)
        ensures
            old(self)@.wf(),
            final(self)@ == old(self)@.resized(new_size),
            actions@ == old(self)@.resize_actions(new_size),
            final(self)@.wf(),
    {
        let mut actions: Vec<Action<F>> = Vec::new();
        match self.surface.resize(new_size) {
            Some(config) => {
                actions.push(Action::ConfigureSurface(config));
            },
            None => {},
        }
        actions
    }

    /// Offers a window event to the renderer before the event loop acts on
    /// it. Returns whether the renderer has used the event up. It holds no
    /// state that input could change, so it never does.
    pub fn input(&mut self, event: &WindowEvent) -> (consumed: bool)
        ensures
            !consumed,
            *final(self) == *old(self),
    {
        let _ = event;
        false
    }

    /// Advances what changes from frame to frame. Nothing does.
    pub fn update(&mut self)
        ensures
            *final(self) == *old(self),
    {
    }

    /// Draws one frame, given what the backend answered to the frame
    /// request.
    ///
    /// On an acquired frame the call succeeds and asks for the clear pass to
    /// be recorded, submitted and presented. On a lost surface it fails with
    /// [`RenderError::Lost`] and asks for the surface to be configured again
    /// at its last known extent. Without memory it fails with
    /// [`RenderError::OutOfMemory`], and the renderer asks to exit. On any
    /// other failure it fails with [`RenderError::Other`] and asks for the
    /// failure to be reported.
    pub fn render(&mut self, outcome: AcquireOutcome) -> (rendered: (
        Result<(), RenderError>,
        Vec<Action<F>>,
    ))
        ensures
            old(self)@.wf(),
            rendered.0 == outcome.verdict(),
            rendered.1@ == old(self)@.render_actions(outcome),
            final(self)@ == old(self)@.rendered(outcome),
            final(self)@.wf(),
    {
        proof {
            use_type_invariant(&self.surface);
        }
        let mut actions: Vec<Action<F>> = Vec::new();
        match outcome {
            AcquireOutcome::Acquired => {
                actions.push(Action::Record(RenderPass::for_clear_frame()));
                actions.push(Action::Submit);
                actions.push(Action::Present);
            },
            AcquireOutcome::Lost => {
                let size = self.surface.size();
                actions = self.resize(size);
            },
            AcquireOutcome::OutOfMemory => {
                self.exit_requested = true;
                actions.push(Action::Exit);
            },
            AcquireOutcome::Timeout => {
                actions.push(Action::Report(outcome));
            },
            AcquireOutcome::Outdated => {
                actions.push(Action::Report(outcome));
            },
        }
        assert(actions@ =~= old(self)@.render_actions(outcome));
        (outcome.classify(), actions)
    }

    /// Reacts to one event and returns what it asks for.
    ///
    /// A close request and escape going down, on the renderer's own window,
    /// make it ask to exit. A new extent of that window resizes the surface.
    /// A redraw tick for that window asks for a frame, whose outcome comes
    /// back as [`Event::FrameAcquired`] and is rendered. The end of a cycle
    /// asks for the next redraw. Everything else is passed over, and so is
    /// every event once the renderer has asked to exit.
    pub fn handle_event(&mut self, event: &Event) -> (actions: Vec<Action<F>>)
        ensures
            old(self)@.wf(),
            final(self)@ == old(self)@.handled(*event),
            actions@ == old(self)@.handle_actions(*event),
            final(self)@.wf(),
    {
        proof {
            use_type_invariant(&self.surface);
        }
        let mut actions: Vec<Action<F>> = Vec::new();
        if self.exit_requested {
            return actions;
        }
        match event {
            Event::Window { own_window, event } => {
                if *own_window && !self.input(event) {
                    if event.requests_exit() {
                        self.exit_requested = true;
                        actions.push(Action::Exit);
                    } else {
                        match event {
                            WindowEvent::Resized(size) => {
                                actions = self.resize(*size);
                            },
                            WindowEvent::ScaleFactorChanged(size) => {
                                actions = self.resize(*size);
                            },
                            _ => {},
                        }
                    }
                }
            },
            Event::RedrawRequested { own_window } => {
                if *own_window {
                    self.update();
                    actions.push(Action::AcquireFrame);
                }
            },
            Event::MainEventsCleared => {
                actions.push(Action::RequestRedraw);
            },
            Event::FrameAcquired(outcome) => {
                let (_, asked) = self.render(*outcome);
                actions = asked;
            },
            Event::Other => {},
        }
        assert(actions@ =~= old(self)@.handle_actions(*event));
        actions
    }

    /// The configuration that the backend surface was last given. Neither
    /// of its dimensions is zero.
    pub fn config(&self) -> (config: SurfaceConfig<F>)
        ensures
            config == self@.surface.config,
            self@.wf(),
    {
        self.surface.config()
    }

    /// The last extent of the window that was not empty. It is the extent of
    /// the configuration.
    pub fn size(&self) -> (size: Size)
        ensures
            size == self@.surface.size,
            self@.wf(),
    {
        self.surface.size()
    }

    /// Whether the renderer has asked to leave the event loop.
    pub fn exit_requested(&self) -> (yes: bool)
        ensures
            yes == self@.exit_requested,
    {
        self.exit_requested
    }
}

/// Feeds a run of events through a renderer, oldest first, and returns
/// everything they ask for, in order.
pub fn run<F: Copy>(state: &mut State<F>, events: &[Event]) -> (actions: Vec<Action<F>>)
    ensures
        old(state)@.wf(),
        final(state)@ == old(state)@.after(events@),
        actions@ == old(state)@.trace(events@),
        final(state)@.wf(),
{
    proof {
        use_type_invariant(&state.surface);
    }
    let mut actions: Vec<Action<F>> = Vec::new();
    let mut done: usize = 0;
    while done < events.len()
        invariant
            done <= events@.len(),
            state@.wf(),
            state@ == old(state)@.after(events@.take(done as int)),
            actions@ == old(state)@.trace(events@.take(done as int)),
        decreases events@.len() - done,
    {
        let mut asked = state.handle_event(&events[done]);
        actions.append(&mut asked);
        proof {
            assert(events@.take(done + 1).drop_last() =~= events@.take(done as int));
        }
        done = done + 1;
    }
    proof {
        assert(events@.take(done as int) =~= events@);
    }
    actions
}

} // verus!
