use learn_wgpu::{
    DeviceContext, Handshake, PresentMode, PresentationSurface, Reply, Runtime, Size,
    SurfaceConfig, UsageFlags,
};

fn device() -> DeviceContext {
    let (mut handshake, _) = Handshake::begin(Runtime::Native);
    handshake.advance(Reply::AdapterFound);
    handshake.advance(Reply::DeviceGranted);
    handshake.into_context().expect("a completed handshake has a context")
}

fn render_target() -> UsageFlags {
    UsageFlags {
        copy_src: false,
        copy_dst: false,
        texture_binding: false,
        storage_binding: false,
        render_attachment: true,
    }
}

fn config(format: &'static str, width: u32, height: u32) -> SurfaceConfig<&'static str> {
    SurfaceConfig {
        format,
        width,
        height,
        usage: render_target(),
        present_mode: PresentMode::Fifo,
    }
}

#[test]
fn size_new_keeps_both_dimensions() {
    let size = Size::new(800, 600);
    assert_eq!(size, Size { width: 800, height: 600 });
}

#[test]
fn size_is_drawable_only_without_a_zero_dimension() {
    assert!(Size::new(1, 1).is_drawable());
    assert!(Size::new(800, 600).is_drawable());
    assert!(Size::new(u32::MAX, u32::MAX).is_drawable());
    assert!(!Size::new(0, 600).is_drawable());
    assert!(!Size::new(800, 0).is_drawable());
    assert!(!Size::new(0, 0).is_drawable());
}

#[test]
fn render_target_usage_sets_one_flag() {
    assert_eq!(UsageFlags::for_render_target(), render_target());
}

#[test]
fn configure_takes_the_first_reported_format() {
    let surface = PresentationSurface::configure(
        &device(),
        &["bgra8-srgb", "rgba8-srgb", "rgba16-float"],
        Size::new(800, 600),
    );
    assert_eq!(surface.config(), config("bgra8-srgb", 800, 600));
    assert_eq!(surface.size(), Size::new(800, 600));
}

#[test]
fn configure_with_a_single_format() {
    let surface = PresentationSurface::configure(&device(), &[42u32], Size::new(1, 1));
    assert_eq!(surface.config().format, 42);
    assert_eq!(surface.config().width, 1);
    assert_eq!(surface.config().height, 1);
    assert_eq!(surface.config().present_mode, PresentMode::Fifo);
    assert_eq!(surface.config().usage, render_target());
}

#[test]
fn surface_resize_hands_out_the_new_configuration() {
    let mut surface =
        PresentationSurface::configure(&device(), &["bgra8-srgb"], Size::new(800, 600));
    let submission = surface.resize(Size::new(1024, 768));
    assert_eq!(submission, Some(config("bgra8-srgb", 1024, 768)));
    assert_eq!(surface.config(), config("bgra8-srgb", 1024, 768));
    assert_eq!(surface.size(), Size::new(1024, 768));
}

#[test]
fn surface_resize_to_zero_width_is_passed_over() {
    let mut surface =
        PresentationSurface::configure(&device(), &["bgra8-srgb"], Size::new(800, 600));
    assert_eq!(surface.resize(Size::new(0, 768)), None);
    assert_eq!(surface.config(), config("bgra8-srgb", 800, 600));
    assert_eq!(surface.size(), Size::new(800, 600));
}

#[test]
fn surface_resize_to_zero_height_is_passed_over() {
    let mut surface =
        PresentationSurface::configure(&device(), &["bgra8-srgb"], Size::new(800, 600));
    assert_eq!(surface.resize(Size::new(1024, 0)), None);
    assert_eq!(surface.config(), config("bgra8-srgb", 800, 600));
    assert_eq!(surface.size(), Size::new(800, 600));
}

#[test]
fn surface_resize_to_the_same_extent_still_reconfigures() {
    let mut surface =
        PresentationSurface::configure(&device(), &["bgra8-srgb"], Size::new(800, 600));
    assert_eq!(surface.resize(Size::new(800, 600)), Some(config("bgra8-srgb", 800, 600)));
    assert_eq!(surface.resize(Size::new(800, 600)), Some(config("bgra8-srgb", 800, 600)));
    assert_eq!(surface.config(), config("bgra8-srgb", 800, 600));
}

#[test]
fn surface_holds_the_last_extent_that_was_not_empty() {
    let mut surface =
        PresentationSurface::configure(&device(), &["bgra8-srgb"], Size::new(800, 600));
    let sizes = [
        Size::new(640, 480),
        Size::new(0, 0),
        Size::new(1920, 1080),
        Size::new(0, 1080),
        Size::new(1920, 0),
    ];
    let mut submitted = Vec::new();
    for size in sizes {
        if let Some(config) = surface.resize(size) {
            submitted.push(config);
        }
    }
    assert_eq!(surface.size(), Size::new(1920, 1080));
    assert_eq!(surface.config(), config("bgra8-srgb", 1920, 1080));
    assert_eq!(
        submitted,
        vec![config("bgra8-srgb", 640, 480), config("bgra8-srgb", 1920, 1080)]
    );
}

#[test]
fn surface_resize_keeps_extreme_extents() {
    let mut surface =
        PresentationSurface::configure(&device(), &["bgra8-srgb"], Size::new(800, 600));
    let submission = surface.resize(Size::new(u32::MAX, 1));
    assert_eq!(submission, Some(config("bgra8-srgb", u32::MAX, 1)));
    assert_eq!(surface.size(), Size::new(u32::MAX, 1));
}
