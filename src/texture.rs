//! Images bound to GPU image handles: the per-image slot, geometric transforms
//! recomputed from the decoded source, and the animation metadata handed back.
use vstd::prelude::*;

use crate::decode::{decode_outcome, format_of, gif_frames_of, AnimationMeta, DecodeError, ImageKind};
use crate::pixels::Rgba;
use crate::pixels::DecodedImage;

verus! {

/// A GPU image handle minted by the render API.
#[derive(Debug, PartialEq, Eq, Structural, Clone, Copy)]
pub struct ImageKey {
    pub namespace: u32,
    pub id: u32,
}

/// A GPU image handle together with the decoded source it was created from.
pub struct WrPixmap {
    pub image_key: ImageKey,
    pub image_buffer: DecodedImage,
}

/// The image types the host may hand to the native loader.
#[derive(Debug, PartialEq, Eq, Structural, Clone, Copy)]
pub enum ImageType {
    NativeImage,
    Png,
    Jpeg,
    Gif,
    Tiff,
    Pbm,
    Xpm,
    Other,
}

/// Whether images of this type are loaded by the native decoder.
pub fn can_use_native_image_api(image_type: ImageType) -> (r: bool)
    ensures
        r == !(image_type is Other),
{
    match image_type {
        ImageType::NativeImage | ImageType::Png | ImageType::Jpeg | ImageType::Gif | ImageType::Tiff | ImageType::Pbm | ImageType::Xpm => true,
        _ => false,
    }
}

/// The handle to update in place, when the slot already holds one.
pub fn existing_image_key(slot: &Option<WrPixmap>) -> (r: Option<ImageKey>)
    ensures
        r == (match slot {
            Some(p) => Some(p.image_key),
            None => None::<ImageKey>,
        }),
{
    match slot {
        Some(p) => Some(p.image_key),
        None => None,
    }
}

/// The handle an image ends up under: the slot's existing handle, updated in place,
/// or `fresh` for an empty slot.
pub open spec fn target_key(slot: Option<WrPixmap>, fresh: ImageKey) -> ImageKey {
    match slot {
        Some(p) => p.image_key,
        None => fresh,
    }
}

/// Installs `image_buffer` in the slot under the slot's existing handle (same
/// identity, new content), or under `fresh` when the slot is empty. Hands back the
/// pixmap it held, whose decoded source the caller drops.
pub fn define_image(slot: &mut Option<WrPixmap>, image_buffer: DecodedImage, fresh: ImageKey) -> (r: Option<WrPixmap>)
    ensures
        *final(slot) == Some(WrPixmap { image_key: target_key(*old(slot), fresh), image_buffer }),
        r == *old(slot),
{
    let image_key = match slot {
        Some(p) => p.image_key,
        None => fresh,
    };
    let previous = slot.take();
    *slot = Some(WrPixmap { image_key, image_buffer });
    previous
}

/// The host's image object, as far as loading and transforming write to it.
pub struct ImageRecord {
    /// Dimensions of the image on display.
    pub width: u32,
    pub height: u32,
    /// The GPU image and the decoded source it was created from.
    pub pixmap: Option<WrPixmap>,
    /// The animation metadata list.
    pub lisp_data: Vec<MetaEntry>,
}

impl ImageRecord {
    /// An image object with nothing loaded.
    pub fn new() -> (r: ImageRecord)
        ensures
            r.width == 0,
            r.height == 0,
            r.pixmap is None,
            r.lisp_data@.len() == 0,
    {
        ImageRecord { width: 0, height: 0, pixmap: None, lisp_data: Vec::new() }
    }

    /// Records a freshly loaded image: its dimensions, the pixmap keeping the
    /// decoded source under the existing handle (or `fresh` when there is none, as
    /// `existing_image_key` tells beforehand), and the metadata list. Hands back the
    /// previous pixmap.
    pub fn install_loaded(&mut self, image: DecodedImage, meta: Option<AnimationMeta>, fresh: ImageKey) -> (r: Option<WrPixmap>)
        ensures
            r == old(self).pixmap,
            final(self).width == image.width,
            final(self).height == image.height,
            final(self).pixmap == Some(WrPixmap { image_key: target_key(old(self).pixmap, fresh), image_buffer: image }),
            final(self).lisp_data@ == meta_list(meta),
    {
        self.width = image.width;
        self.height = image.height;
        self.lisp_data = animation_frame_meta_to_lisp_data(meta);
        define_image(&mut self.pixmap, image, fresh)
    }

    /// Records that `shown`, a transform of the pixmap's source, is on display: only
    /// the dimensions change; the source, its GPU image and the metadata stay, so
    /// that the next transform starts from the source again.
    pub fn install_transformed(&mut self, shown: &DecodedImage)
        ensures
            final(self).width == shown.width,
            final(self).height == shown.height,
            final(self).pixmap == old(self).pixmap,
            final(self).lisp_data == old(self).lisp_data,
    {
        self.width = shown.width;
        self.height = shown.height;
    }
}

/// One entry of the metadata list handed back to the host.
#[derive(Debug, PartialEq, Eq, Structural, Clone, Copy)]
pub enum MetaEntry {
    /// The frame delay, in milliseconds, as numerator and denominator.
    Delay { numer: u32, denom: u32 },
    /// The number of frames.
    Count(usize),
}

/// The metadata list: the delay when positive, then the count when positive.
pub open spec fn meta_list(meta: Option<AnimationMeta>) -> Seq<MetaEntry> {
    match meta {
        None => seq![],
        Some(m) => {
            let d = if m.delay_numer > 0 && m.delay_denom > 0 {
                seq![MetaEntry::Delay { numer: m.delay_numer, denom: m.delay_denom }]
            } else {
                seq![]
            };
            let c = if m.frame_count > 0 { seq![MetaEntry::Count(m.frame_count)] } else { seq![] };
            d + c
        },
    }
}

/// The animation metadata as the list the host stores on the image; only positive
/// values appear, and no metadata gives the empty list.
pub fn animation_frame_meta_to_lisp_data(animation_meta: Option<AnimationMeta>) -> (r: Vec<MetaEntry>)
    ensures
        r@ == meta_list(animation_meta),
{
    let mut out: Vec<MetaEntry> = Vec::new();
    match animation_meta {
        None => {},
        Some(m) => {
            if m.delay_numer > 0 && m.delay_denom > 0 {
                out.push(MetaEntry::Delay { numer: m.delay_numer, denom: m.delay_denom });
            }
            if m.frame_count > 0 {
                out.push(MetaEntry::Count(m.frame_count));
            }
        },
    }
    assert(out@ =~= meta_list(animation_meta));
    out
}

/// Channel `c` of pixel `(x, y)` of an image `w` pixels wide.
pub open spec fn px(s: Seq<u8>, w: int, x: int, y: int, c: int) -> u8 {
    s[4 * (y * w + x) + c]
}

/// What `image::imageops::resize` with the Lanczos3 filter yields.
pub uninterp spec fn resized_of(w: u32, h: u32, pixels: Seq<u8>, nw: u32, nh: u32) -> Seq<u8>;

/// Whether `dst` is `src` (`w` by `h`) turned by `degrees` clockwise; any angle other
/// than 90, 180 and 270 leaves the image as it is.
pub open spec fn is_rotation(w: u32, h: u32, src: Seq<u8>, degrees: u32, dst: DecodedImage) -> bool {
    let (wi, hi) = (w as int, h as int);
    &&& dst.pixels@.len() == src.len()
    &&& if degrees == 90 {
        &&& dst.width == h && dst.height == w
        &&& forall|x: int, y: int, c: int| 0 <= x < wi && 0 <= y < hi && 0 <= c < 4 ==>
                px(dst.pixels@, hi, hi - 1 - y, x, c) == #[trigger] px(src, wi, x, y, c)
    } else if degrees == 180 {
        &&& dst.width == w && dst.height == h
        &&& forall|x: int, y: int, c: int| 0 <= x < wi && 0 <= y < hi && 0 <= c < 4 ==>
                px(dst.pixels@, wi, wi - 1 - x, hi - 1 - y, c) == #[trigger] px(src, wi, x, y, c)
    } else if degrees == 270 {
        &&& dst.width == h && dst.height == w
        &&& forall|x: int, y: int, c: int| 0 <= x < wi && 0 <= y < hi && 0 <= c < 4 ==>
                px(dst.pixels@, hi, y, wi - 1 - x, c) == #[trigger] px(src, wi, x, y, c)
    } else {
        dst.width == w && dst.height == h && dst.pixels@ == src
    }
}

/// Relies on `image::imageops::resize` with `FilterType::Lanczos3`: an image of
/// exactly the requested size. An empty source is left out: sampling it indexes
/// past its pixels.
#[verifier::external_body]
fn resize_lanczos(img: &DecodedImage, nw: u32, nh: u32) -> (r: DecodedImage)
    requires
        img.wf(),
        img.width > 0,
        img.height > 0,
        4 * (nw as int) * (nh as int) <= isize::MAX,
    ensures
        r.width == nw,
        r.height == nh,
        r.wf(),
        r.pixels@ == resized_of(img.width, img.height, img.pixels@, nw, nh),
{
    let src = image::RgbaImage::from_raw(img.width, img.height, img.pixels.clone()).unwrap();
    let out = image::imageops::resize(&src, nw, nh, image::imageops::FilterType::Lanczos3);
    DecodedImage { width: out.width(), height: out.height(), pixels: out.into_raw() }
}

/// Relies on `image::imageops::rotate90`: pixel `(x, y)` moves to `(h - 1 - y, x)`.
#[verifier::external_body]
fn rotate90(img: &DecodedImage) -> (r: DecodedImage)
    requires
        img.wf(),
    ensures
        is_rotation(img.width, img.height, img.pixels@, 90, r),
{
    let src = image::RgbaImage::from_raw(img.width, img.height, img.pixels.clone()).unwrap();
    let out = image::imageops::rotate90(&src);
    DecodedImage { width: out.width(), height: out.height(), pixels: out.into_raw() }
}

/// Relies on `image::imageops::rotate180`: pixel `(x, y)` moves to `(w - 1 - x, h - 1 - y)`.
#[verifier::external_body]
fn rotate180(img: &DecodedImage) -> (r: DecodedImage)
    requires
        img.wf(),
    ensures
        is_rotation(img.width, img.height, img.pixels@, 180, r),
{
    let src = image::RgbaImage::from_raw(img.width, img.height, img.pixels.clone()).unwrap();
    let out = image::imageops::rotate180(&src);
    DecodedImage { width: out.width(), height: out.height(), pixels: out.into_raw() }
}

/// Relies on `image::imageops::rotate270`: pixel `(x, y)` moves to `(y, w - 1 - x)`.
#[verifier::external_body]
fn rotate270(img: &DecodedImage) -> (r: DecodedImage)
    requires
        img.wf(),
    ensures
        is_rotation(img.width, img.height, img.pixels@, 270, r),
{
    let src = image::RgbaImage::from_raw(img.width, img.height, img.pixels.clone()).unwrap();
    let out = image::imageops::rotate270(&src);
    DecodedImage { width: out.width(), height: out.height(), pixels: out.into_raw() }
}

/// The image to display for a transform request: the pixmap's decoded source,
/// never an earlier transform's output, resized to `width` by `height` and then
/// turned by `rotation` degrees (90, 180 or 270; any other angle does not turn).
pub fn transform_image(pixmap: &WrPixmap, width: u32, height: u32, rotation: u32) -> (r: DecodedImage)
    requires
        pixmap.image_buffer.wf(),
        pixmap.image_buffer.width > 0,
        pixmap.image_buffer.height > 0,
        4 * (width as int) * (height as int) <= isize::MAX,
    ensures
        is_rotation(
            width,
            height,
            resized_of(pixmap.image_buffer.width, pixmap.image_buffer.height, pixmap.image_buffer.pixels@, width, height),
            rotation,
            r,
        ),
{
    let resized = resize_lanczos(&pixmap.image_buffer, width, height);
    if rotation == 90 {
        rotate90(&resized)
    } else if rotation == 180 {
        rotate180(&resized)
    } else if rotation == 270 {
        rotate270(&resized)
    } else {
        resized
    }
}

/// A quarter turn swaps the dimensions: transforming to `width` by `height` with a
/// rotation of 90 (or 270) degrees yields an image `height` wide and `width` high.
pub proof fn lemma_quarter_turn_swaps_dimensions(w: u32, h: u32, src: Seq<u8>, degrees: u32, dst: DecodedImage)
    requires
        degrees == 90 || degrees == 270,
        is_rotation(w, h, src, degrees, dst),
    ensures
        dst.width == h,
        dst.height == w,
        dst.pixels@.len() == src.len(),
{
}

/// Loading frame `i` of an animation: the primary path yields exactly that frame's
/// pixels, and the metadata list it leads to holds that frame's delay (when
/// positive) followed by the number of frames.
pub proof fn lemma_selected_frame_metadata(
    data: Seq<u8>,
    i: int,
    fg: Rgba,
    bg: Rgba,
    r: Result<(DecodedImage, Option<AnimationMeta>), DecodeError>,
)
    requires
        format_of(data) == Some(ImageKind::Gif),
        gif_frames_of(data) is Some,
        0 <= i < gif_frames_of(data).unwrap().len() <= usize::MAX,
        decode_outcome(data, i, fg, bg, r),
    ensures
        r is Ok,
        r.unwrap().0@ == (gif_frames_of(data).unwrap()[i].0, gif_frames_of(data).unwrap()[i].1, gif_frames_of(data).unwrap()[i].2),
        meta_list(r.unwrap().1) == (if gif_frames_of(data).unwrap()[i].3 > 0 && gif_frames_of(data).unwrap()[i].4 > 0 {
            seq![MetaEntry::Delay { numer: gif_frames_of(data).unwrap()[i].3, denom: gif_frames_of(data).unwrap()[i].4 }]
        } else {
            Seq::<MetaEntry>::empty()
        }) + seq![MetaEntry::Count(gif_frames_of(data).unwrap().len() as usize)],
{
    let fs = gif_frames_of(data).unwrap();
    assert(fs.len() > 0);
    match r {
        Ok((_, Some(m))) => {
            assert(m.frame_count == fs.len() as usize);
            assert(m.frame_count > 0);
        },
        Ok((_, None)) => {},
        Err(_) => {},
    }
}
} // verus!
