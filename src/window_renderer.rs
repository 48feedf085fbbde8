//! The window renderer: a `Suspended` / `Active` lifecycle that owns the
//! presentation surface, and the frame pipeline that draws into it.

use crate::outside::{
    acquire_buffer, buffer_pixels, holds_no_commands, new_context, new_pixmap, new_render_context,
    new_resources, new_surface, open_layers, pixmap_pixels, present_buffer, rasterize, reset_scene,
    resize_surface, scene_dims, scene_height, scene_size_supported, scene_width,
};
use crate::error::RenderError;
use crate::pixel::convert_pixels;
use crate::timing::FrameTimings;
use anyrender::WindowHandle;
use softbuffer::{Context, Surface};
use std::time::Instant;
use vello_cpu::{RenderContext, Resources};
use vstd::prelude::*;

verus! {

/// The scene buffer handed to the caller each frame to record draw commands.
pub struct VelloCpuAnyrenderScene(pub RenderContext);

/// The surface resources held while the renderer is active. The context and
/// the surface are created together and released together, the surface
/// first.
#[verifier::reject_recursive_types(W)]
pub struct ActiveRenderState<W> {
    pub(crate) surface: Surface<W, W>,
    pub(crate) _context: Context<W>,
    /// The width last requested for the surface, before clamping.
    pub(crate) width: u32,
    /// The height last requested for the surface, before clamping.
    pub(crate) height: u32,
    /// The width the surface was last resized to; zero until a resize
    /// succeeded.
    pub(crate) surface_width: u32,
    /// The height the surface was last resized to; zero until a resize
    /// succeeded.
    pub(crate) surface_height: u32,
}

/// Whether the renderer holds surface resources.
#[verifier::reject_recursive_types(W)]
pub enum RenderState<W> {
    Active(ActiveRenderState<W>),
    Suspended,
}

/// A renderer bound to one window. The render state comes first so that the
/// surface is dropped before the window handle.
#[verifier::reject_recursive_types(W)]
pub struct VelloCpuWindowRenderer<W> {
    render_state: RenderState<W>,
    window_handle: W,
    render_context: VelloCpuAnyrenderScene,
    resources: Resources,
}

/// A surface dimension as the surface receives it: zero becomes one.
pub open spec fn clamped(v: u32) -> u32 {
    if v == 0 {
        1
    } else {
        v
    }
}

/// Clamps a requested surface dimension to at least one.
pub fn clamp_dimension(v: u32) -> (r: u32)
    ensures
        r == clamped(v),
{
    if v == 0 {
        1
    } else {
        v
    }
}

/// Whether `width` x `height`, cast to 16 bits, is a scene size the
/// rasterizer supports.
pub open spec fn requested_size_supported(width: u32, height: u32) -> bool {
    scene_size_supported(width as u16, height as u16)
}

/// Tests `requested_size_supported`, which `resume` and `set_size` require.
pub fn supports_size(width: u32, height: u32) -> (r: bool)
    ensures
        r == requested_size_supported(width, height),
{
    let w = width as u16;
    let h = height as u16;
    w == 0 || h == 0 || (w <= 65532 && h <= 65532)
}

/// What a draw callback may do to the scene: it keeps its size and leaves no
/// layer open.
pub open spec fn draws_within(before: RenderContext, after: RenderContext) -> bool {
    &&& scene_dims(after) == scene_dims(before)
    &&& open_layers(after) == 0
}

impl<W> VelloCpuWindowRenderer<W> {
    /// True iff the renderer holds surface resources.
    pub closed spec fn active(&self) -> bool {
        self.render_state is Active
    }

    /// The window this renderer is bound to.
    pub closed spec fn window(&self) -> W {
        self.window_handle
    }

    /// The scene buffer's render context.
    pub closed spec fn scene(&self) -> RenderContext {
        self.render_context.0
    }

    /// The (width, height) of the scene buffer.
    pub open spec fn scene_size(&self) -> (u16, u16) {
        scene_dims(self.scene())
    }

    /// The size last requested for the active surface, before clamping.
    pub closed spec fn requested_size(&self) -> (u32, u32) {
        match self.render_state {
            RenderState::Active(s) => (s.width, s.height),
            RenderState::Suspended => (0, 0),
        }
    }

    /// The size the active surface was last resized to.
    pub closed spec fn surface_size(&self) -> (u32, u32) {
        match self.render_state {
            RenderState::Active(s) => (s.surface_width, s.surface_height),
            RenderState::Suspended => (0, 0),
        }
    }

    /// The scene buffer holds no open layer, and while active the surface has
    /// the requested size clamped to at least one, while the scene buffer has
    /// it unclamped and cast to 16 bits.
    pub closed spec fn wf(&self) -> bool {
        &&& open_layers(self.scene()) == 0
        &&& self.render_state is Active ==> {
            &&& self.surface_size() == (
                clamped(self.requested_size().0),
                clamped(self.requested_size().1),
            )
            &&& self.scene_size() == (
                self.requested_size().0 as u16,
                self.requested_size().1 as u16,
            )
        }
    }

    /// `self` is `prev` after a successful resize to `width` x `height`: the
    /// surface received both dimensions clamped to at least one, and the scene
    /// buffer was made anew, empty, with the unclamped dimensions cast to 16
    /// bits.
    pub open spec fn resized_from(&self, prev: &Self, width: u32, height: u32) -> bool {
        &&& self.wf()
        &&& self.active()
        &&& self.window() == prev.window()
        &&& self.requested_size() == (width, height)
        &&& self.surface_size() == (clamped(width), clamped(height))
        &&& self.scene_size() == (width as u16, height as u16)
        &&& holds_no_commands(self.scene())
    }

    /// `self` is `prev` after a suspension: no surface, same window and the
    /// very same scene buffer.
    pub open spec fn suspended_from(&self, prev: &Self) -> bool {
        &&& self.wf()
        &&& !self.active()
        &&& self.window() == prev.window()
        &&& self.scene() == prev.scene()
    }

    /// True iff the renderer is active.
    pub fn is_active(&self) -> (r: bool)
        ensures
            r == self.active(),
    {
        match self.render_state {
            RenderState::Active(_) => true,
            RenderState::Suspended => false,
        }
    }

    /// The (width, height) of the scene buffer.
    pub fn scene_dimensions(&self) -> (r: (u16, u16))
        ensures
            r == self.scene_size(),
    {
        (scene_width(&self.render_context.0), scene_height(&self.render_context.0))
    }

    /// Drops the surface resources, keeping the window for a later resume.
    /// Nothing changes when already suspended.
    pub fn suspend(&mut self)
        requires
            old(self).wf(),
        ensures
            final(self).suspended_from(old(self)),
            !old(self).active() ==> *final(self) == *old(self),
    {
        self.render_state = RenderState::Suspended;
    }
}

impl<W: WindowHandle + Clone> VelloCpuWindowRenderer<W> {
    /// A suspended renderer for `window`, with an empty zero-sized scene.
    pub fn new(window: W) -> (r: Self)
        ensures
            r.wf(),
            !r.active(),
            r.window() == window,
            r.scene_size() == (0u16, 0u16),
            holds_no_commands(r.scene()),
    {
        VelloCpuWindowRenderer {
            render_state: RenderState::Suspended,
            window_handle: window,
            render_context: VelloCpuAnyrenderScene(new_render_context(0, 0)),
            resources: new_resources(),
        }
    }

    /// Resizes the active surface and remakes the scene buffer. When the
    /// surface refuses, its resources are dropped and the renderer is left
    /// suspended with its scene unchanged.
    fn apply_size(&mut self, width: u32, height: u32) -> (r: Result<(), RenderError>)
        requires
            old(self).active(),
            open_layers(old(self).render_context.0) == 0,
            requested_size_supported(width, height),
        ensures
            r is Ok ==> final(self).resized_from(old(self), width, height),
            r is Err ==> r == Err::<(), RenderError>(RenderError::Resize)
                && final(self).suspended_from(old(self)),
    {
        let outcome = match &mut self.render_state {
            RenderState::Active(state) => {
                let w = clamp_dimension(width);
                let h = clamp_dimension(height);
                match resize_surface(&mut state.surface, w, h) {
                    Ok(()) => {
                        state.width = width;
                        state.height = height;
                        state.surface_width = w;
                        state.surface_height = h;
                        Ok(())
                    },
                    Err(e) => Err(e),
                }
            },
            RenderState::Suspended => Ok(()),
        };
        match outcome {
            Ok(()) => {
                self.render_context = VelloCpuAnyrenderScene(
                    new_render_context(width as u16, height as u16),
                );
                Ok(())
            },
            Err(_) => {
                self.render_state = RenderState::Suspended;
                Err(RenderError::Resize)
            },
        }
    }

    /// Resizes the surface to `max(width, 1)` x `max(height, 1)` and replaces
    /// the scene buffer with an empty one of `width` x `height` cast to 16
    /// bits. Does nothing while suspended. A surface that refuses the size is
    /// a fatal error: its resources are dropped and `Resize` is returned.
    pub fn set_size(&mut self, width: u32, height: u32) -> (r: Result<(), RenderError>)
        requires
            old(self).wf(),
            requested_size_supported(width, height),
        ensures
            !old(self).active() ==> r is Ok && *final(self) == *old(self),
            old(self).active() && r is Ok ==> final(self).resized_from(old(self), width, height),
            old(self).active() && r is Err ==> r == Err::<(), RenderError>(RenderError::Resize)
                && final(self).suspended_from(old(self)),
    {
        if self.is_active() {
            self.apply_size(width, height)
        } else {
            Ok(())
        }
    }

    /// Creates a presentation context and a surface over the window, makes
    /// them the active resources (replacing any earlier ones) and sizes them
    /// as `set_size` does. Failing to create either, or to resize, is fatal:
    /// the error names the phase and the renderer is left suspended.
    pub fn resume(&mut self, width: u32, height: u32) -> (r: Result<(), RenderError>)
        requires
            old(self).wf(),
            requested_size_supported(width, height),
        ensures
            r is Ok <==> final(self).active(),
            r is Ok ==> final(self).resized_from(old(self), width, height),
            r is Err ==> final(self).suspended_from(old(self)),
            r matches Err(e) ==> (e == RenderError::ContextCreation || e
                == RenderError::SurfaceCreation || e == RenderError::Resize),
    {
        let context = match new_context(self.window_handle.clone()) {
            Ok(c) => c,
            Err(_) => {
                self.render_state = RenderState::Suspended;
                return Err(RenderError::ContextCreation);
            },
        };
        let surface = match new_surface(&context, self.window_handle.clone()) {
            Ok(s) => s,
            Err(_) => {
                self.render_state = RenderState::Suspended;
                return Err(RenderError::SurfaceCreation);
            },
        };
        self.render_state = RenderState::Active(
            ActiveRenderState {
                surface,
                _context: context,
                width,
                height,
                surface_width: 0,
                surface_height: 0,
            },
        );
        self.apply_size(width, height)
    }

    /// Draws one frame. While suspended this does nothing. When the surface
    /// has no buffer ready the frame is dropped silently. Otherwise a pixmap
    /// of the scene's size is made, `draw_fn` records the frame's commands
    /// into the scene, the scene is rasterized into the pixmap, each pixel is
    /// packed into the surface buffer (see `convert_pixels`), the buffer is
    /// presented and the scene's commands are cleared, keeping its size. The
    /// result holds the time each phase took. A pixmap and a surface buffer
    /// of different pixel counts, or a failed presentation, are fatal errors.
    pub fn render<F: FnOnce(&mut VelloCpuAnyrenderScene)>(&mut self, draw_fn: F) -> (r: Result<
        Option<FrameTimings>,
        RenderError,
    >)
        requires
            old(self).wf(),
            old(self).active() ==> forall|s: &mut VelloCpuAnyrenderScene|
                open_layers((*s).0) == 0 ==> #[trigger] draw_fn.requires((s,)),
            old(self).active() ==> forall|s: &mut VelloCpuAnyrenderScene|
                open_layers((*s).0) == 0 && #[trigger] draw_fn.ensures((s,), ()) ==> draws_within(
                    (*s).0,
                    (*final(s)).0,
                ),
        ensures
            final(self).wf(),
            final(self).window() == old(self).window(),
            final(self).active() == old(self).active(),
            final(self).requested_size() == old(self).requested_size(),
            final(self).surface_size() == old(self).surface_size(),
            final(self).scene_size() == old(self).scene_size(),
            !old(self).active() ==> r == Ok::<Option<FrameTimings>, RenderError>(None),
            !old(self).active() ==> *final(self) == *old(self),
            r == Ok::<Option<FrameTimings>, RenderError>(None) ==> final(self).scene() == old(
                self,
            ).scene(),
            r != Ok::<Option<FrameTimings>, RenderError>(None) ==> holds_no_commands(
                final(self).scene(),
            ),
            r matches Ok(Some(t)) ==> t.command_ms + t.render_ms + t.convert_ms + t.present_ms
                == t.overall_ms,
            r matches Err(e) ==> (e == RenderError::Present || e is PixelCountMismatch),
            r matches Err(RenderError::PixelCountMismatch { .. }) ==> old(self).scene_size().0 as int
                * old(self).scene_size().1 as int != old(self).surface_size().0 as int * old(
                self,
            ).surface_size().1 as int,
    {
        let state = match &mut self.render_state {
            RenderState::Active(state) => state,
            RenderState::Suspended => {
                return Ok(None);
            },
        };
        let mut surface_buffer = match acquire_buffer(state) {
            Ok(b) => b,
            Err(_) => {
                return Ok(None);
            },
        };

        let start = Instant::now();

        let width = scene_width(&self.render_context.0);
        let height = scene_height(&self.render_context.0);
        let mut pixmap = new_pixmap(width, height);
        draw_fn(&mut self.render_context);
        let command_time = start.elapsed().as_millis();

        rasterize(&self.render_context.0, &mut pixmap, &mut self.resources);
        let render_time = start.elapsed().as_millis();

        let src = pixmap_pixels(&pixmap);
        let out = buffer_pixels(&mut surface_buffer);
        let converted = convert_pixels(src.as_slice(), out);
        let convert_time = start.elapsed().as_millis();

        let presented = match converted {
            Ok(()) => present_buffer(surface_buffer),
            Err(e) => {
                reset_scene(&mut self.render_context.0);
                return Err(e);
            },
        };
        let present_time = start.elapsed().as_millis();

        // Drop the recorded commands so that memory does not grow across frames.
        reset_scene(&mut self.render_context.0);

        match presented {
            Ok(()) => Ok(Some(FrameTimings::from_marks(command_time, render_time, convert_time, present_time))),
            Err(_) => Err(RenderError::Present),
        }
    }
}

/// Suspending and then resuming successfully reinitializes the renderer: it
/// is active again on the same window, its surface has the new size clamped
/// to at least one, and its scene buffer is a fresh one of the new size, with
/// nothing recorded before the suspension left in it.
pub proof fn lemma_suspend_then_resume<W>(
    before: VelloCpuWindowRenderer<W>,
    suspended: VelloCpuWindowRenderer<W>,
    resumed: VelloCpuWindowRenderer<W>,
    width: u32,
    height: u32,
)
    requires
        suspended.suspended_from(&before),
        resumed.resized_from(&suspended, width, height),
    ensures
        resumed.wf(),
        resumed.active(),
        resumed.window() == before.window(),
        resumed.surface_size() == (clamped(width), clamped(height)),
        resumed.scene_size() == (width as u16, height as u16),
        holds_no_commands(resumed.scene()),
{
}

} // verus!
