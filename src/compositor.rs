//! The per-window frame compositor: a display list that is open between the start
//! of a frame and its flush, seeded with the previous frame's captured image, and
//! the decisions taken around context creation and framebuffer capture.
use vstd::prelude::*;

use crate::texture::ImageKey;

verus! {

/// Frame state of one window. `B` is the display-list builder of the scene graph.
pub struct FrameCompositor<B> {
    display_list_builder: Option<B>,
    previous_frame_image: Option<ImageKey>,
}

/// The builder after a request to begin a frame with `fresh` at hand: an open
/// builder stays, otherwise `fresh` is opened.
pub open spec fn begin_spec<B>(builder: Option<B>, fresh: B) -> Option<B> {
    match builder {
        Some(b) => Some(b),
        None => Some(fresh),
    }
}

impl<B> FrameCompositor<B> {
    pub closed spec fn builder(&self) -> Option<B> {
        self.display_list_builder
    }

    pub closed spec fn previous_frame(&self) -> Option<ImageKey> {
        self.previous_frame_image
    }

    /// An idle compositor with no previous frame.
    pub fn new() -> (r: FrameCompositor<B>)
        ensures
            r.builder() is None,
            r.previous_frame() is None,
    {
        FrameCompositor { display_list_builder: None, previous_frame_image: None }
    }

    /// Whether a display list is open.
    pub fn is_building(&self) -> (r: bool)
        ensures
            r == self.builder() is Some,
    {
        self.display_list_builder.is_some()
    }

    /// The image captured at the end of the last flush, which a new frame's display
    /// list paints as its base layer.
    pub fn get_previous_frame(&self) -> (r: Option<ImageKey>)
        ensures
            r == self.previous_frame(),
    {
        self.previous_frame_image
    }

    /// Begins a frame: when idle, `fresh` (built over `get_previous_frame()`) becomes
    /// the open display list; when one is open already it stays, and `fresh` is
    /// dropped. Returns whether `fresh` was taken.
    pub fn begin_frame(&mut self, fresh: B) -> (r: bool)
        ensures
            r == old(self).builder() is None,
            final(self).builder() == begin_spec(old(self).builder(), fresh),
            final(self).previous_frame() == old(self).previous_frame(),
    {
        if self.display_list_builder.is_none() {
            self.display_list_builder = Some(fresh);
            true
        } else {
            false
        }
    }

    /// Takes the open display list out for painting or for submission; the
    /// compositor is idle afterwards. With no list open nothing changes.
    pub fn take_display_list(&mut self) -> (r: Option<B>)
        ensures
            r == old(self).builder(),
            final(self).builder() is None,
            final(self).previous_frame() == old(self).previous_frame(),
    {
        self.display_list_builder.take()
    }

    /// Records the texture captured from the frame just rendered.
    pub fn finish_flush(&mut self, captured: ImageKey)
        ensures
            final(self).builder() is None,
            final(self).previous_frame() == Some(captured),
    {
        self.display_list_builder = None;
        self.previous_frame_image = Some(captured);
    }

    /// Drops the open display list, if any.
    pub fn clear_display_list_builder(&mut self)
        ensures
            final(self).builder() is None,
            final(self).previous_frame() == old(self).previous_frame(),
    {
        self.display_list_builder = None;
    }
}

/// Beginning a frame: from idle it opens the builder at hand, and beginning again
/// without a flush in between keeps the builder of the first (flushing is
/// `take_display_list`, which leaves the compositor idle and changes nothing when
/// no list is open).
pub proof fn lemma_frame_state_machine<B>(builder: Option<B>, first: B, second: B)
    ensures
        builder is None ==> begin_spec(builder, first) == Some(first),
        begin_spec(begin_spec(builder, first), second) == begin_spec(builder, first),
        begin_spec(builder, first) is Some,
{
}

/// The tiers of GPU context tried in turn when a window is created.
#[derive(Debug, PartialEq, Eq, Structural, Clone, Copy)]
pub enum ContextTier {
    /// The platform's default desktop API.
    Modern,
    /// The embedded-systems API.
    Compatible,
    /// The fixed legacy desktop version 2.1.
    Legacy,
}

/// The tier tried first.
pub fn first_context_tier() -> (r: ContextTier)
    ensures
        r == ContextTier::Modern,
{
    ContextTier::Modern
}

/// The tier to try after `failed` could not be created; `None` after the last.
pub fn next_context_tier(failed: ContextTier) -> (r: Option<ContextTier>)
    ensures
        failed == ContextTier::Modern ==> r == Some(ContextTier::Compatible),
        failed == ContextTier::Compatible ==> r == Some(ContextTier::Legacy),
        failed == ContextTier::Legacy ==> r is None,
{
    match failed {
        ContextTier::Modern => Some(ContextTier::Compatible),
        ContextTier::Compatible => Some(ContextTier::Legacy),
        ContextTier::Legacy => None,
    }
}

/// A rectangle in device or framebuffer pixels.
#[derive(Debug, PartialEq, Eq, Structural, Clone, Copy)]
pub struct PixelRect {
    pub x: i32,
    pub y: i32,
    pub width: i32,
    pub height: i32,
}

/// The framebuffer rectangle to copy for `rect` of a device `device_height` high:
/// the same, but counted from the bottom when the surface origin is there.
pub fn framebuffer_rect(rect: PixelRect, device_height: i32, origin_top_left: bool) -> (r: PixelRect)
    requires
        0 <= rect.y,
        0 <= rect.height,
        rect.y + rect.height <= device_height,
    ensures
        r.x == rect.x,
        r.width == rect.width,
        r.height == rect.height,
        r.y == (if origin_top_left { rect.y as int } else { device_height - rect.y - rect.height }),
{
    if origin_top_left {
        rect
    } else {
        PixelRect { x: rect.x, y: device_height - rect.y - rect.height, width: rect.width, height: rect.height }
    }
}

/// Colour depth of an RGB colour buffer: the sum of its channel sizes.
pub fn color_bits(r_size: u8, g_size: u8, b_size: u8) -> (r: u8)
    requires
        r_size + g_size + b_size <= u8::MAX,
    ensures
        r == r_size + g_size + b_size,
{
    r_size + g_size + b_size
}

} // verus!
