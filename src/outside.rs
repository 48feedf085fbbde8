//! The calls this library makes into softbuffer (presentation surface),
//! vello_cpu (rasterizer) and std's clock, with what is assumed of each.

use crate::pixel::PremulPixel;
use crate::window_renderer::ActiveRenderState;
use anyrender::WindowHandle;
use softbuffer::{Buffer, Context, SoftBufferError, Surface};
use std::num::NonZeroU32;
use std::time::{Duration, Instant};
use vello_cpu::{Pixmap, RenderContext, Resources};
use vstd::prelude::*;

verus! {

#[verifier::external_type_specification]
#[verifier::external_body]
#[verifier::reject_recursive_types(D)]
pub struct ExContext<D>(Context<D>);

#[verifier::external_type_specification]
#[verifier::external_body]
#[verifier::reject_recursive_types(D)]
#[verifier::reject_recursive_types(W)]
pub struct ExSurface<D, W>(Surface<D, W>);

#[verifier::external_type_specification]
#[verifier::external_body]
#[verifier::reject_recursive_types(D)]
#[verifier::reject_recursive_types(W)]
pub struct ExBuffer<'a, D, W>(Buffer<'a, D, W>);

#[verifier::external_type_specification]
#[verifier::external_body]
pub struct ExSoftBufferError(SoftBufferError);

#[verifier::external_type_specification]
#[verifier::external_body]
pub struct ExRenderContext(RenderContext);

#[verifier::external_type_specification]
#[verifier::external_body]
pub struct ExPixmap(Pixmap);

#[verifier::external_type_specification]
#[verifier::external_body]
pub struct ExResources(Resources);

#[verifier::external_type_specification]
#[verifier::external_body]
pub struct ExInstant(Instant);

/// The (width, height) that a scene's render context was made with.
pub uninterp spec fn scene_dims(c: RenderContext) -> (u16, u16);

/// How many layers were pushed on a render context and not yet popped.
pub uninterp spec fn open_layers(c: RenderContext) -> nat;

/// Whether a render context holds no recorded draw commands.
pub uninterp spec fn holds_no_commands(c: RenderContext) -> bool;

/// The (width, height) of a pixmap.
pub uninterp spec fn pixmap_dims(p: Pixmap) -> (u16, u16);

/// A scene size that vello_cpu can make a render context for: it snaps the
/// scene rectangle outward to 4-pixel tiles in 16 bits, which overflows for a
/// nonempty scene with a side above 65532.
pub open spec fn scene_size_supported(width: u16, height: u16) -> bool {
    width == 0 || height == 0 || (width <= 65532 && height <= 65532)
}

/// A surface buffer together with the size the surface was last resized to,
/// which is the size softbuffer gives the buffer.
#[verifier::reject_recursive_types(W)]
pub struct FrameBuffer<'a, W> {
    buffer: Buffer<'a, W, W>,
    width: u32,
    height: u32,
}

impl<'a, W> FrameBuffer<'a, W> {
    /// The width of the buffer in pixels.
    pub closed spec fn width(&self) -> u32 {
        self.width
    }

    /// The height of the buffer in pixels.
    pub closed spec fn height(&self) -> u32 {
        self.height
    }
}

/// Relies on softbuffer::Context::new: a context over the window's display,
/// or the platform's error.
#[verifier::external_body]
pub(crate) fn new_context<W: WindowHandle>(display: W) -> (r: Result<Context<W>, SoftBufferError>) {
    Context::new(display)
}

/// Relies on softbuffer::Surface::new: a surface for the window over the
/// context, or the platform's error. (The AppKit backend expects one of its
/// own platform calls to succeed; no argument here can rule that out.)
#[verifier::external_body]
pub(crate) fn new_surface<W: WindowHandle>(context: &Context<W>, window: W) -> (r: Result<
    Surface<W, W>,
    SoftBufferError,
>) {
    Surface::new(context, window)
}

/// Relies on softbuffer::Surface::resize, which takes nonzero dimensions.
#[verifier::external_body]
pub(crate) fn resize_surface<W: WindowHandle>(surface: &mut Surface<W, W>, width: u32, height: u32) -> (r:
    Result<(), SoftBufferError>)
    requires
        width >= 1,
        height >= 1,
{
    surface.resize(NonZeroU32::new(width).unwrap(), NonZeroU32::new(height).unwrap())
}

/// Relies on softbuffer::Surface::buffer_mut: the buffer for the next frame,
/// or the platform's error when none is ready. Some backends panic on a
/// surface that was never resized, hence the requirement; the buffer has the
/// size set by the last resize. Only the surface is touched.
#[verifier::external_body]
pub(crate) fn acquire_buffer<'a, W: WindowHandle>(state: &'a mut ActiveRenderState<W>) -> (r: Result<
    FrameBuffer<'a, W>,
    SoftBufferError,
>)
    requires
        old(state).surface_width >= 1,
        old(state).surface_height >= 1,
    ensures
        final(state).width == old(state).width,
        final(state).height == old(state).height,
        final(state).surface_width == old(state).surface_width,
        final(state).surface_height == old(state).surface_height,
        r matches Ok(b) ==> b.width() == old(state).surface_width && b.height() == old(
            state,
        ).surface_height,
{
    let (width, height) = (state.surface_width, state.surface_height);
    state.surface.buffer_mut().map(|buffer| FrameBuffer { buffer, width, height })
}

/// Relies on the `DerefMut` of softbuffer::Buffer: its pixels, one `u32` for
/// each pixel of the size set by the last resize.
#[verifier::external_body]
pub(crate) fn buffer_pixels<'b, 'a, W: WindowHandle>(fb: &'b mut FrameBuffer<'a, W>) -> (r:
    &'b mut [u32])
    ensures
        r@.len() == old(fb).width() as int * old(fb).height() as int,
        final(fb).width() == old(fb).width(),
        final(fb).height() == old(fb).height(),
{
    &mut *fb.buffer
}

/// Relies on softbuffer::Buffer::present: shows the buffer in the window, or
/// the platform's error. Some backends panic when no size was set.
#[verifier::external_body]
pub(crate) fn present_buffer<W: WindowHandle>(fb: FrameBuffer<'_, W>) -> (r: Result<(), SoftBufferError>)
    requires
        fb.width() >= 1,
        fb.height() >= 1,
{
    fb.buffer.present()
}

/// Relies on vello_cpu::RenderContext::new: an empty scene of the given
/// size, with no layer open.
#[verifier::external_body]
pub(crate) fn new_render_context(width: u16, height: u16) -> (r: RenderContext)
    requires
        scene_size_supported(width, height),
    ensures
        scene_dims(r) == (width, height),
        open_layers(r) == 0,
        holds_no_commands(r),
{
    RenderContext::new(width, height)
}

/// Relies on vello_cpu::RenderContext::width: the width the scene was made
/// with.
#[verifier::external_body]
pub(crate) fn scene_width(c: &RenderContext) -> (r: u16)
    ensures
        r == scene_dims(*c).0,
{
    c.width()
}

/// Relies on vello_cpu::RenderContext::height: the height the scene was made
/// with.
#[verifier::external_body]
pub(crate) fn scene_height(c: &RenderContext) -> (r: u16)
    ensures
        r == scene_dims(*c).1,
{
    c.height()
}

/// Relies on vello_cpu::RenderContext::reset: drops the recorded commands
/// and open layers, keeping the scene's size.
#[verifier::external_body]
pub(crate) fn reset_scene(c: &mut RenderContext)
    ensures
        scene_dims(*final(c)) == scene_dims(*old(c)),
        open_layers(*final(c)) == 0,
        holds_no_commands(*final(c)),
{
    c.reset()
}

/// Relies on vello_cpu::Resources::new: fresh rasterizer resources.
#[verifier::external_body]
pub(crate) fn new_resources() -> (r: Resources) {
    Resources::new()
}

/// Relies on vello_cpu::Pixmap::new: a transparent pixmap of the given size.
#[verifier::external_body]
pub(crate) fn new_pixmap(width: u16, height: u16) -> (r: Pixmap)
    ensures
        pixmap_dims(r) == (width, height),
{
    Pixmap::new(width, height)
}

/// Relies on vello_cpu::RenderContext::render, which asserts that every
/// pushed layer was popped: rasterizes the scene into the pixmap, whose size
/// stays as it was.
#[verifier::external_body]
pub(crate) fn rasterize(c: &RenderContext, pixmap: &mut Pixmap, resources: &mut Resources)
    requires
        open_layers(*c) == 0,
    ensures
        pixmap_dims(*final(pixmap)) == pixmap_dims(*old(pixmap)),
{
    c.render(pixmap, resources)
}

/// Relies on vello_cpu::Pixmap::data: the pixmap's premultiplied pixels, one
/// for each of its width times height pixels, in order.
#[verifier::external_body]
pub(crate) fn pixmap_pixels(pixmap: &Pixmap) -> (r: Vec<PremulPixel>)
    ensures
        r@.len() == pixmap_dims(*pixmap).0 as int * pixmap_dims(*pixmap).1 as int,
{
    pixmap.data().iter().map(|p: &peniko::color::PremulRgba8| PremulPixel { r: p.r, g: p.g, b: p.b, a: p.a }).collect()
}

/// Relies on std::time::Instant::now.
pub assume_specification[ Instant::now ]() -> Instant;

/// Relies on std::time::Instant::elapsed.
pub assume_specification[ Instant::elapsed ](i: &Instant) -> Duration;

/// Relies on std::time::Duration::as_millis.
pub assume_specification[ Duration::as_millis ](d: &Duration) -> u128;

} // verus!
