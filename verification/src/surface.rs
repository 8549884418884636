//! The presentation surface: the drawable target bound to a window, and the
//! configuration it was last given.
//!
//! The pixel format is a type parameter `F`. The surface never looks inside a
//! format, it only carries the one it picked, so a caller uses whatever type
//! its graphics backend reports formats in.

use vstd::prelude::*;
use crate::device::DeviceContext;
use crate::size::Size;

verus! {

/// What the textures of a surface may be used for.
#[derive(Clone, Copy, Debug, PartialEq, Eq)]
pub struct UsageFlags {
    pub copy_src: bool,
    pub copy_dst: bool,
    pub texture_binding: bool,
    pub storage_binding: bool,
    pub render_attachment: bool,
}

impl UsageFlags {
    /// The textures are written by render passes and used for nothing else.
    pub open spec fn render_target() -> UsageFlags {
        UsageFlags {
            copy_src: false,
            copy_dst: false,
            texture_binding: false,
            storage_binding: false,
            render_attachment: true,
        }
    }

    pub fn for_render_target() -> (usage: UsageFlags)
        ensures
            usage == UsageFlags::render_target(),
    {
        UsageFlags {
            copy_src: false,
            copy_dst: false,
            texture_binding: false,
            storage_binding: false,
            render_attachment: true,
        }
    }
}

/// How finished frames are handed to the display.
#[derive(Clone, Copy, Debug, PartialEq, Eq)]
pub enum PresentMode {
    AutoVsync,
    AutoNoVsync,
    /// Frames wait in a queue and one is shown per vertical blank. Every
    /// platform supports it.
    Fifo,
    FifoRelaxed,
    Immediate,
    Mailbox,
}

/// What a backend surface is configured with.
#[derive(Clone, Copy, Debug, PartialEq, Eq)]
pub struct SurfaceConfig<F> {
    pub format: F,
    pub width: u32,
    pub height: u32,
    pub usage: UsageFlags,
    pub present_mode: PresentMode,
}

impl<F> SurfaceConfig<F> {
    pub open spec fn extent(self) -> Size {
        Size { width: self.width, height: self.height }
    }

    /// A configuration that may be handed to the backend: one with a zero
    /// dimension is a fatal error there.
    pub open spec fn submittable(self) -> bool {
        self.width > 0 && self.height > 0
    }

    /// The configuration a surface starts with: render-target usage,
    /// vertical-sync capped presentation, and the given format and extent.
    pub open spec fn initial(format: F, size: Size) -> SurfaceConfig<F> {
        SurfaceConfig {
            format,
            width: size.width,
            height: size.height,
            usage: UsageFlags::render_target(),
            present_mode: PresentMode::Fifo,
        }
    }

    /// This configuration with another extent and everything else kept.
    pub open spec fn with_extent(self, size: Size) -> SurfaceConfig<F> {
        SurfaceConfig { width: size.width, height: size.height, ..self }
    }
}

/// The mathematical content of a [`PresentationSurface`].
pub struct SurfaceModel<F> {
    /// The configuration that the backend surface was last given.
    pub config: SurfaceConfig<F>,
    /// The last window extent that was not empty.
    pub size: Size,
}

impl<F> SurfaceModel<F> {
    /// The configuration always carries the last known window extent, and
    /// that extent is never empty.
    pub open spec fn wf(self) -> bool {
        &&& self.size.drawable()
        &&& self.config.extent() == self.size
    }

    /// The surface after its first configuration: the first format reported
    /// as supported, at the window's extent.
    pub open spec fn configured(formats: Seq<F>, size: Size) -> SurfaceModel<F>
        recommends
            formats.len() > 0,
    {
        SurfaceModel { config: SurfaceConfig::initial(formats[0], size), size }
    }

    /// Whether a resize to `new_size` reaches the backend. One with an empty
    /// extent does not.
    pub open spec fn reconfigures(new_size: Size) -> bool {
        new_size.drawable()
    }

    /// The surface after the window was resized to `new_size`.
    pub open spec fn resized(self, new_size: Size) -> SurfaceModel<F> {
        if Self::reconfigures(new_size) {
            SurfaceModel { config: self.config.with_extent(new_size), size: new_size }
        } else {
            self
        }
    }

    /// What a resize to `new_size` hands to the backend, if anything.
    pub open spec fn resize_submission(self, new_size: Size) -> Option<SurfaceConfig<F>> {
        if Self::reconfigures(new_size) {
            Some(self.resized(new_size).config)
        } else {
            None
        }
    }

    /// The surface after a run of resizes, oldest first.
    pub open spec fn resized_all(self, sizes: Seq<Size>) -> SurfaceModel<F>
        decreases sizes.len(),
    {
        if sizes.len() == 0 {
            self
        } else {
            self.resized_all(sizes.drop_last()).resized(sizes.last())
        }
    }
}

/// The last extent in `sizes` that is not empty, or `fallback` where there is
/// none.
pub open spec fn last_drawable(sizes: Seq<Size>, fallback: Size) -> Size
    decreases sizes.len(),
{
    if sizes.len() == 0 {
        fallback
    } else if sizes.last().drawable() {
        sizes.last()
    } else {
        last_drawable(sizes.drop_last(), fallback)
    }
}

/// The drawable target of one window together with its current
/// configuration. Only [`PresentationSurface::configure`] and
/// [`PresentationSurface::resize`] change it.
#[derive(Debug, PartialEq, Eq)]
pub struct PresentationSurface<F> {
    config: SurfaceConfig<F>,
    size: Size,
}

impl<F> View for PresentationSurface<F> {
    type V = SurfaceModel<F>;

    closed spec fn view(&self) -> SurfaceModel<F> {
        SurfaceModel { config: self.config, size: self.size }
    }
}

impl<F> PresentationSurface<F> {
    /// Every surface is valid at all times.
    #[verifier::type_invariant]
    pub open spec fn inv(self) -> bool {
        self@.wf()
    }
}

impl<F: Copy> PresentationSurface<F> {
    /// Sets the surface up for a device. `formats` is what the adapter
    /// reports as supported for this surface, in the adapter's order, and
    /// `size` is the window's extent. The caller hands [`Self::config`] of
    /// the result to the backend before the first frame.
    ///
    /// A surface that the adapter has no format for cannot be configured, and
    /// neither can one for an empty window.
    pub fn configure(device: &DeviceContext, formats: &[F], size: Size) -> (surface: Self)
        requires
            formats@.len() > 0,
            size.drawable(),
        ensures
            surface@ == SurfaceModel::configured(formats@, size),
            surface@.wf(),
    {
        let _ = device;
        let config = SurfaceConfig {
            format: formats[0],
            width: size.width,
            height: size.height,
            usage: UsageFlags::for_render_target(),
            present_mode: PresentMode::Fifo,
        };
        PresentationSurface { config, size }
    }

    /// Follows the window to `new_size`. Returns the configuration that the
    /// caller must hand to the backend before it acquires the next frame, or
    /// `None` where the new extent is empty and nothing changes.
    pub fn resize(&mut self, new_size: Size) -> (submission: Option<SurfaceConfig<F>>)
        ensures
            old(self)@.wf(),
            final(self)@ == old(self)@.resized(new_size),
            submission == old(self)@.resize_submission(new_size),
            final(self)@.wf(),
    {
        proof {
            use_type_invariant(&*self);
        }
        if new_size.width > 0 && new_size.height > 0 {
            let config = SurfaceConfig {
                format: self.config.format,
                width: new_size.width,
                height: new_size.height,
                usage: self.config.usage,
                present_mode: self.config.present_mode,
            };
            *self = PresentationSurface { config, size: new_size };
            Some(config)
        } else {
            None
        }
    }

    /// The configuration that the backend surface was last given. Neither
    /// of its dimensions is zero.
    pub fn config(&self) -> (config: SurfaceConfig<F>)
        ensures
            config == self@.config,
            self@.wf(),
    {
        proof {
            use_type_invariant(self);
        }
        self.config
    }

    /// The last window extent that was not empty. It is the extent of the
    /// configuration.
    pub fn size(&self) -> (size: Size)
        ensures
            size == self@.size,
            self@.wf(),
    {
        proof {
            use_type_invariant(self);
        }
        self.size
    }
}

/// A resize to an empty extent changes nothing and reaches no backend.
pub proof fn lemma_empty_resize_is_noop<F>(surface: SurfaceModel<F>, new_size: Size)
    requires
        new_size.width == 0 || new_size.height == 0,
    ensures
        surface.resized(new_size) == surface,
        surface.resize_submission(new_size) is None,
{
}

/// A resize to an extent that is not empty makes it the extent of the
/// configuration, hands exactly that configuration to the backend, and keeps
/// format, usage and presentation mode.
pub proof fn lemma_resize_takes_extent<F>(surface: SurfaceModel<F>, new_size: Size)
    requires
        new_size.drawable(),
    ensures
        surface.resized(new_size).wf(),
        surface.resized(new_size).size == new_size,
        surface.resized(new_size).config.extent() == new_size,
        surface.resized(new_size).config.format == surface.config.format,
        surface.resized(new_size).config.usage == surface.config.usage,
        surface.resized(new_size).config.present_mode == surface.config.present_mode,
        surface.resize_submission(new_size) == Some(surface.resized(new_size).config),
{
}

/// Resizing twice to the same extent is the same as resizing once.
pub proof fn lemma_resize_idempotent<F>(surface: SurfaceModel<F>, new_size: Size)
    ensures
        surface.resized(new_size).resized(new_size) == surface.resized(new_size),
{
}

/// After any run of resizes the surface holds the last extent of the run that
/// was not empty, or its earlier one where every extent of the run was empty.
/// Format, usage and presentation mode are those it started with.
pub proof fn lemma_resizes_keep_last_drawable<F>(surface: SurfaceModel<F>, sizes: Seq<Size>)
    requires
        surface.wf(),
    ensures
        surface.resized_all(sizes).wf(),
        surface.resized_all(sizes).size == last_drawable(sizes, surface.size),
        surface.resized_all(sizes).config == surface.config.with_extent(
            last_drawable(sizes, surface.size),
        ),
    decreases sizes.len(),
{
    if sizes.len() > 0 {
        lemma_resizes_keep_last_drawable(surface, sizes.drop_last());
    }
}

/// After a run of resizes that ends in an extent that is not empty, the
/// configuration has that extent.
pub proof fn lemma_resizes_end_in_last<F>(surface: SurfaceModel<F>, sizes: Seq<Size>)
    requires
        sizes.len() > 0,
        sizes.last().drawable(),
    ensures
        surface.resized_all(sizes).size == sizes.last(),
        surface.resized_all(sizes).config.width == sizes.last().width,
        surface.resized_all(sizes).config.height == sizes.last().height,
{
}

} // verus!
