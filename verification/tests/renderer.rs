use learn_wgpu::{
    run, AcquireOutcome, Action, Color, DeviceContext, Event, Handshake, Key, KeyState, LoadOp,
    PresentMode, RenderError, RenderPass, Reply, Runtime, Size, State, SurfaceConfig,
    UsageFlags, WindowEvent,
};

type Format = &'static str;

fn device_context() -> DeviceContext {
    let (mut handshake, _) = Handshake::begin(Runtime::Native);
    handshake.advance(Reply::AdapterFound);
    handshake.advance(Reply::DeviceGranted);
    handshake.into_context().expect("a completed handshake has a context")
}

fn surface_config(width: u32, height: u32) -> SurfaceConfig<Format> {
    SurfaceConfig {
        format: "bgra8-srgb",
        width,
        height,
        usage: UsageFlags {
            copy_src: false,
            copy_dst: false,
            texture_binding: false,
            storage_binding: false,
            render_attachment: true,
        },
        present_mode: PresentMode::Fifo,
    }
}

fn started(width: u32, height: u32) -> State<Format> {
    let (state, _) =
        State::new(&device_context(), &["bgra8-srgb", "rgba8-srgb"], Size::new(width, height));
    state
}

fn clear_pass() -> RenderPass {
    RenderPass {
        extra_color_attachments: 0,
        load: LoadOp::Clear(Color { red: 10, green: 20, blue: 30, alpha: 100 }),
        store: true,
        depth_stencil: false,
    }
}

fn drawn() -> Vec<Action<Format>> {
    vec![Action::Record(clear_pass()), Action::Submit, Action::Present]
}

fn own(event: WindowEvent) -> Event {
    Event::Window { own_window: true, event }
}

fn foreign(event: WindowEvent) -> Event {
    Event::Window { own_window: false, event }
}

fn escape_pressed() -> WindowEvent {
    WindowEvent::KeyboardInput { state: KeyState::Pressed, key: Some(Key::Escape) }
}

fn count(actions: &[Action<Format>], wanted: Action<Format>) -> usize {
    actions.iter().filter(|action| **action == wanted).count()
}

#[test]
fn new_state_configures_the_surface_once() {
    let (state, actions) =
        State::new(&device_context(), &["bgra8-srgb", "rgba8-srgb"], Size::new(800, 600));
    assert_eq!(actions, vec![Action::ConfigureSurface(surface_config(800, 600))]);
    assert_eq!(state.config(), surface_config(800, 600));
    assert_eq!(state.size(), Size::new(800, 600));
    assert!(!state.exit_requested());
}

#[test]
fn first_render_after_init_draws_one_frame() {
    let mut state = started(800, 600);
    let (result, actions) = state.render(AcquireOutcome::Acquired);
    assert_eq!(result, Ok(()));
    assert_eq!(actions, drawn());
    assert_eq!(count(&actions, Action::Submit), 1);
    assert_eq!(count(&actions, Action::Present), 1);
    assert_eq!(count(&actions, Action::Record(clear_pass())), 1);
    assert_eq!(state.config(), surface_config(800, 600));
    assert!(!state.exit_requested());
}

#[test]
fn clear_pass_is_the_dark_blue_backdrop() {
    let pass = RenderPass::for_clear_frame();
    assert_eq!(pass, clear_pass());
    assert_eq!(pass.load, LoadOp::Clear(Color { red: 10, green: 20, blue: 30, alpha: 100 }));
    assert!(pass.store);
    assert!(!pass.depth_stencil);
    assert_eq!(pass.extra_color_attachments, 0);
}

#[test]
fn backdrop_channels_are_the_expected_fractions() {
    let pass = RenderPass::for_clear_frame();
    let color = match pass.load {
        LoadOp::Clear(color) => color,
        LoadOp::Load => panic!("the frame is cleared"),
    };
    assert_eq!(f64::from(color.red) / 100.0, 0.1);
    assert_eq!(f64::from(color.green) / 100.0, 0.2);
    assert_eq!(f64::from(color.blue) / 100.0, 0.3);
    assert_eq!(f64::from(color.alpha) / 100.0, 1.0);
}

#[test]
fn minimise_then_restore_reconfigures_once() {
    let mut state = started(800, 600);
    let first = state.resize(Size::new(0, 0));
    assert_eq!(first, vec![]);
    assert_eq!(state.config(), surface_config(800, 600));
    let second = state.resize(Size::new(800, 600));
    assert_eq!(second, vec![Action::ConfigureSurface(surface_config(800, 600))]);
    assert_eq!(state.config(), surface_config(800, 600));
    let (result, actions) = state.render(AcquireOutcome::Acquired);
    assert_eq!(result, Ok(()));
    assert_eq!(actions, drawn());
}

#[test]
fn resize_to_zero_width_changes_nothing() {
    let mut state = started(800, 600);
    assert_eq!(state.resize(Size::new(0, 480)), vec![]);
    assert_eq!(state.config(), surface_config(800, 600));
    assert_eq!(state.size(), Size::new(800, 600));
    assert_eq!(state.resize(Size::new(0, 480)), vec![]);
    assert_eq!(state.config(), surface_config(800, 600));
}

#[test]
fn resize_to_zero_height_changes_nothing() {
    let mut state = started(800, 600);
    assert_eq!(state.resize(Size::new(640, 0)), vec![]);
    assert_eq!(state.config(), surface_config(800, 600));
    assert_eq!(state.size(), Size::new(800, 600));
}

#[test]
fn resize_takes_the_new_extent() {
    let mut state = started(800, 600);
    let actions = state.resize(Size::new(1280, 720));
    assert_eq!(actions, vec![Action::ConfigureSurface(surface_config(1280, 720))]);
    assert_eq!(state.config(), surface_config(1280, 720));
    assert_eq!(state.size(), Size::new(1280, 720));
}

#[test]
fn resizes_end_at_the_last_extent() {
    let mut state = started(800, 600);
    for size in [Size::new(10, 20), Size::new(0, 0), Size::new(300, 200), Size::new(1, 0)] {
        state.resize(size);
    }
    state.resize(Size::new(1600, 900));
    assert_eq!(state.config().width, 1600);
    assert_eq!(state.config().height, 900);
    assert_eq!(state.config().format, "bgra8-srgb");
}

#[test]
fn render_after_resize_draws_at_the_new_extent() {
    let mut state = started(800, 600);
    state.resize(Size::new(1280, 720));
    let (result, actions) = state.render(AcquireOutcome::Acquired);
    assert_eq!(result, Ok(()));
    assert_eq!(actions, drawn());
    assert_eq!(state.config(), surface_config(1280, 720));
}

#[test]
fn lost_surface_is_reconfigured_at_the_last_extent() {
    let mut state = started(800, 600);
    state.resize(Size::new(1280, 720));
    state.resize(Size::new(0, 0));
    let (result, actions) = state.render(AcquireOutcome::Lost);
    assert_eq!(result, Err(RenderError::Lost));
    assert_eq!(actions, vec![Action::ConfigureSurface(surface_config(1280, 720))]);
    assert_eq!(count(&actions, Action::Present), 0);
    assert_eq!(count(&actions, Action::Submit), 0);
    assert_eq!(state.config(), surface_config(1280, 720));
    assert!(!state.exit_requested());
}

#[test]
fn out_of_memory_asks_to_exit_and_draws_nothing() {
    let mut state = started(800, 600);
    let (result, actions) = state.render(AcquireOutcome::OutOfMemory);
    assert_eq!(result, Err(RenderError::OutOfMemory));
    assert_eq!(actions, vec![Action::Exit]);
    assert!(state.exit_requested());
    assert_eq!(state.config(), surface_config(800, 600));
}

#[test]
fn timeout_is_reported_and_the_frame_given_up() {
    let mut state = started(800, 600);
    let (result, actions) = state.render(AcquireOutcome::Timeout);
    assert_eq!(result, Err(RenderError::Other));
    assert_eq!(actions, vec![Action::Report(AcquireOutcome::Timeout)]);
    assert!(!state.exit_requested());
    assert_eq!(state.config(), surface_config(800, 600));
}

#[test]
fn outdated_is_reported_and_the_frame_given_up() {
    let mut state = started(800, 600);
    let (result, actions) = state.render(AcquireOutcome::Outdated);
    assert_eq!(result, Err(RenderError::Other));
    assert_eq!(actions, vec![Action::Report(AcquireOutcome::Outdated)]);
    assert!(!state.exit_requested());
}

#[test]
fn render_goes_on_after_a_failed_frame() {
    let mut state = started(800, 600);
    assert_eq!(state.render(AcquireOutcome::Timeout).0, Err(RenderError::Other));
    assert_eq!(state.render(AcquireOutcome::Lost).0, Err(RenderError::Lost));
    let (result, actions) = state.render(AcquireOutcome::Acquired);
    assert_eq!(result, Ok(()));
    assert_eq!(actions, drawn());
}

#[test]
fn classify_names_each_outcome() {
    assert_eq!(AcquireOutcome::Acquired.classify(), Ok(()));
    assert_eq!(AcquireOutcome::Lost.classify(), Err(RenderError::Lost));
    assert_eq!(AcquireOutcome::OutOfMemory.classify(), Err(RenderError::OutOfMemory));
    assert_eq!(AcquireOutcome::Timeout.classify(), Err(RenderError::Other));
    assert_eq!(AcquireOutcome::Outdated.classify(), Err(RenderError::Other));
}

#[test]
fn input_never_consumes_an_event() {
    let mut state = started(800, 600);
    for event in [
        WindowEvent::CloseRequested,
        escape_pressed(),
        WindowEvent::KeyboardInput { state: KeyState::Released, key: Some(Key::Other) },
        WindowEvent::KeyboardInput { state: KeyState::Pressed, key: None },
        WindowEvent::Resized(Size::new(1, 1)),
        WindowEvent::ScaleFactorChanged(Size::new(2, 2)),
        WindowEvent::Other,
    ] {
        assert!(!state.input(&event));
    }
    assert_eq!(state.config(), surface_config(800, 600));
    assert!(!state.exit_requested());
}

#[test]
fn update_changes_nothing() {
    let mut state = started(800, 600);
    state.update();
    assert_eq!(state, started(800, 600));
}

#[test]
fn escape_press_asks_to_exit_and_stops_rendering() {
    let mut state = started(800, 600);
    let actions = state.handle_event(&own(escape_pressed()));
    assert_eq!(actions, vec![Action::Exit]);
    assert!(state.exit_requested());
    assert_eq!(state.handle_event(&Event::RedrawRequested { own_window: true }), vec![]);
    assert_eq!(state.handle_event(&Event::FrameAcquired(AcquireOutcome::Acquired)), vec![]);
    assert_eq!(state.handle_event(&Event::MainEventsCleared), vec![]);
    assert_eq!(state.handle_event(&own(WindowEvent::Resized(Size::new(10, 10)))), vec![]);
    assert_eq!(state.config(), surface_config(800, 600));
}

#[test]
fn close_request_asks_to_exit_as_escape_does() {
    let mut closed = started(800, 600);
    let mut escaped = started(800, 600);
    let close_actions = closed.handle_event(&own(WindowEvent::CloseRequested));
    let escape_actions = escaped.handle_event(&own(escape_pressed()));
    assert_eq!(close_actions, vec![Action::Exit]);
    assert_eq!(close_actions, escape_actions);
    assert!(closed.exit_requested());
    assert_eq!(closed, escaped);
    assert_eq!(closed.handle_event(&Event::RedrawRequested { own_window: true }), vec![]);
}

#[test]
fn other_keys_do_not_exit() {
    let mut state = started(800, 600);
    for event in [
        WindowEvent::KeyboardInput { state: KeyState::Released, key: Some(Key::Escape) },
        WindowEvent::KeyboardInput { state: KeyState::Pressed, key: Some(Key::Other) },
        WindowEvent::KeyboardInput { state: KeyState::Pressed, key: None },
        WindowEvent::KeyboardInput { state: KeyState::Released, key: None },
    ] {
        assert_eq!(state.handle_event(&own(event)), vec![]);
        assert!(!state.exit_requested());
    }
}

#[test]
fn events_of_other_windows_are_passed_over() {
    let mut state = started(800, 600);
    for event in [
        foreign(WindowEvent::CloseRequested),
        foreign(escape_pressed()),
        foreign(WindowEvent::Resized(Size::new(10, 10))),
        foreign(WindowEvent::ScaleFactorChanged(Size::new(10, 10))),
        Event::RedrawRequested { own_window: false },
        Event::Other,
    ] {
        assert_eq!(state.handle_event(&event), vec![]);
    }
    assert_eq!(state, started(800, 600));
}

#[test]
fn resized_event_resizes_the_surface() {
    let mut state = started(800, 600);
    let actions = state.handle_event(&own(WindowEvent::Resized(Size::new(1024, 768))));
    assert_eq!(actions, vec![Action::ConfigureSurface(surface_config(1024, 768))]);
    assert_eq!(state.size(), Size::new(1024, 768));
}

#[test]
fn scale_factor_change_resizes_the_surface() {
    let mut state = started(800, 600);
    let actions =
        state.handle_event(&own(WindowEvent::ScaleFactorChanged(Size::new(1600, 1200))));
    assert_eq!(actions, vec![Action::ConfigureSurface(surface_config(1600, 1200))]);
    assert_eq!(state.config(), surface_config(1600, 1200));
}

#[test]
fn empty_resize_event_is_passed_over() {
    let mut state = started(800, 600);
    assert_eq!(state.handle_event(&own(WindowEvent::Resized(Size::new(0, 0)))), vec![]);
    assert_eq!(
        state.handle_event(&own(WindowEvent::ScaleFactorChanged(Size::new(0, 300)))),
        vec![]
    );
    assert_eq!(state, started(800, 600));
}

#[test]
fn redraw_tick_asks_for_a_frame() {
    let mut state = started(800, 600);
    assert_eq!(
        state.handle_event(&Event::RedrawRequested { own_window: true }),
        vec![Action::AcquireFrame]
    );
    assert_eq!(state, started(800, 600));
}

#[test]
fn end_of_cycle_asks_for_a_redraw() {
    let mut state = started(800, 600);
    assert_eq!(state.handle_event(&Event::MainEventsCleared), vec![Action::RequestRedraw]);
    assert_eq!(state, started(800, 600));
}

#[test]
fn frame_event_renders() {
    let mut state = started(800, 600);
    assert_eq!(state.handle_event(&Event::FrameAcquired(AcquireOutcome::Acquired)), drawn());
    assert_eq!(
        state.handle_event(&Event::FrameAcquired(AcquireOutcome::Lost)),
        vec![Action::ConfigureSurface(surface_config(800, 600))]
    );
    assert_eq!(
        state.handle_event(&Event::FrameAcquired(AcquireOutcome::Timeout)),
        vec![Action::Report(AcquireOutcome::Timeout)]
    );
    assert!(!state.exit_requested());
    assert_eq!(
        state.handle_event(&Event::FrameAcquired(AcquireOutcome::OutOfMemory)),
        vec![Action::Exit]
    );
    assert!(state.exit_requested());
}

#[test]
fn run_of_no_events_asks_for_nothing() {
    let mut state = started(800, 600);
    assert_eq!(run(&mut state, &[]), vec![]);
    assert_eq!(state, started(800, 600));
}

#[test]
fn run_collects_a_whole_session_in_order() {
    let mut state = started(800, 600);
    let events = [
        Event::MainEventsCleared,
        Event::RedrawRequested { own_window: true },
        Event::FrameAcquired(AcquireOutcome::Acquired),
        own(WindowEvent::Resized(Size::new(0, 0))),
        own(WindowEvent::Resized(Size::new(1024, 768))),
        Event::MainEventsCleared,
        Event::RedrawRequested { own_window: true },
        Event::FrameAcquired(AcquireOutcome::Lost),
        Event::RedrawRequested { own_window: true },
        Event::FrameAcquired(AcquireOutcome::Acquired),
        own(WindowEvent::CloseRequested),
        Event::RedrawRequested { own_window: true },
        Event::FrameAcquired(AcquireOutcome::Acquired),
    ];
    let actions = run(&mut state, &events);
    assert_eq!(
        actions,
        vec![
            Action::RequestRedraw,
            Action::AcquireFrame,
            Action::Record(clear_pass()),
            Action::Submit,
            Action::Present,
            Action::ConfigureSurface(surface_config(1024, 768)),
            Action::RequestRedraw,
            Action::AcquireFrame,
            Action::ConfigureSurface(surface_config(1024, 768)),
            Action::AcquireFrame,
            Action::Record(clear_pass()),
            Action::Submit,
            Action::Present,
            Action::Exit,
        ]
    );
    assert!(state.exit_requested());
    assert_eq!(state.config(), surface_config(1024, 768));
    assert_eq!(count(&actions, Action::Submit), count(&actions, Action::Present));
    assert_eq!(count(&actions, Action::Record(clear_pass())), 2);
}

#[test]
fn run_never_configures_with_a_zero_dimension() {
    let mut state = started(800, 600);
    let events = [
        own(WindowEvent::Resized(Size::new(0, 600))),
        own(WindowEvent::ScaleFactorChanged(Size::new(800, 0))),
        Event::FrameAcquired(AcquireOutcome::Lost),
        own(WindowEvent::Resized(Size::new(3, 4))),
        own(WindowEvent::Resized(Size::new(0, 0))),
        Event::FrameAcquired(AcquireOutcome::Lost),
    ];
    let actions = run(&mut state, &events);
    assert_eq!(
        actions,
        vec![
            Action::ConfigureSurface(surface_config(800, 600)),
            Action::ConfigureSurface(surface_config(3, 4)),
            Action::ConfigureSurface(surface_config(3, 4)),
        ]
    );
    for action in actions {
        if let Action::ConfigureSurface(config) = action {
            assert!(config.width > 0 && config.height > 0);
        }
    }
}

#[test]
fn run_after_exit_is_silent() {
    let mut state = started(800, 600);
    let events = [
        Event::FrameAcquired(AcquireOutcome::OutOfMemory),
        Event::MainEventsCleared,
        Event::RedrawRequested { own_window: true },
        Event::FrameAcquired(AcquireOutcome::Acquired),
        own(WindowEvent::Resized(Size::new(5, 5))),
    ];
    assert_eq!(run(&mut state, &events), vec![Action::Exit]);
    assert!(state.exit_requested());
    assert_eq!(state.config(), surface_config(800, 600));
}

#[test]
fn requests_exit_tells_close_and_escape_from_the_rest() {
    assert!(WindowEvent::CloseRequested.requests_exit());
    assert!(escape_pressed().requests_exit());
    for event in [
        WindowEvent::KeyboardInput { state: KeyState::Released, key: Some(Key::Escape) },
        WindowEvent::KeyboardInput { state: KeyState::Pressed, key: Some(Key::Other) },
        WindowEvent::KeyboardInput { state: KeyState::Pressed, key: None },
        WindowEvent::Resized(Size::new(800, 600)),
        WindowEvent::ScaleFactorChanged(Size::new(800, 600)),
        WindowEvent::Other,
    ] {
        assert!(!event.requests_exit());
    }
}

#[test]
fn other_window_events_are_passed_over() {
    let mut state = started(800, 600);
    assert_eq!(state.handle_event(&own(WindowEvent::Other)), vec![]);
    assert_eq!(state.handle_event(&Event::Other), vec![]);
    assert_eq!(state, started(800, 600));
}
