//! Decoding encoded image bytes into RGBA pixel buffers through the `image` crate,
//! with frame selection for animations and recolouring of monochrome bitmaps.
use image::AnimationDecoder;
use vstd::prelude::*;

use crate::pixels::{apply_bitmap_colors, is_bitmap_recolor, DecodedImage, Rgba};

verus! {

#[verifier::external_type_specification]
#[verifier::external_body]
pub struct ExImageError(image::ImageError);

/// The formats that decoding treats apart.
#[derive(Debug, PartialEq, Eq, Structural, Clone, Copy)]
pub enum ImageKind {
    Gif,
    Pnm,
    Other,
}

/// Why decoding failed.
#[derive(Debug, PartialEq, Eq, Structural, Clone, Copy)]
pub enum DecodeError {
    /// The bytes are of no format the decoder recognises.
    UnsupportedFormat,
    /// The format was recognised but the bytes do not decode.
    Malformed,
    /// The requested animation frame does not exist.
    FrameOutOfRange,
}

/// Frame count and the selected frame's delay, as a fraction of milliseconds.
#[derive(Debug, PartialEq, Eq, Structural, Clone, Copy)]
pub struct AnimationMeta {
    pub frame_count: usize,
    pub delay_numer: u32,
    pub delay_denom: u32,
}

/// One decoded frame of an animation.
pub struct GifFrame {
    pub image: DecodedImage,
    pub delay_numer: u32,
    pub delay_denom: u32,
}

/// A frame as plain values: width, height, pixels, delay numerator and denominator.
pub open spec fn frame_view(f: GifFrame) -> (u32, u32, Seq<u8>, u32, u32) {
    (f.image.width, f.image.height, f.image.pixels@, f.delay_numer, f.delay_denom)
}

/// Whether `data` begins with `sig`.
pub open spec fn starts_with(data: Seq<u8>, sig: Seq<u8>) -> bool {
    sig.len() <= data.len() && data.subrange(0, sig.len() as int) == sig
}

/// The signatures of the formats other than GIF and PNM that `image::guess_format`
/// recognises: PNG, JPEG, WebP, TIFF (two), DDS, BMP, ICO, HDR, farbfeld, AVIF
/// (two), OpenEXR and QOI.
pub open spec fn other_signatures() -> Seq<Seq<u8>> {
    seq![
        seq![0x89u8, 0x50, 0x4e, 0x47, 0x0d, 0x0a, 0x1a, 0x0a],
        seq![0xffu8, 0xd8, 0xff],
        seq![0x52u8, 0x49, 0x46, 0x46],
        seq![0x4du8, 0x4d, 0x00, 0x2a],
        seq![0x49u8, 0x49, 0x2a, 0x00],
        seq![0x44u8, 0x44, 0x53, 0x20],
        seq![0x42u8, 0x4d],
        seq![0x00u8, 0x00, 0x01, 0x00],
        seq![0x23u8, 0x3f, 0x52, 0x41, 0x44, 0x49, 0x41, 0x4e, 0x43, 0x45],
        seq![0x66u8, 0x61, 0x72, 0x62, 0x66, 0x65, 0x6c, 0x64],
        seq![0x00u8, 0x00, 0x00, 0x20, 0x66, 0x74, 0x79, 0x70, 0x61, 0x76, 0x69, 0x66],
        seq![0x00u8, 0x00, 0x00, 0x1c, 0x66, 0x74, 0x79, 0x70, 0x61, 0x76, 0x69, 0x66],
        seq![0x76u8, 0x2f, 0x31, 0x01],
        seq![0x71u8, 0x6f, 0x69, 0x66]
    ]
}

/// The format `image::guess_format` finds in `data` from its leading magic bytes:
/// `GIF87a`/`GIF89a` is GIF, `P1` to `P7` is PNM (no other signature starts with
/// `P` or `G`), another known signature is some other format, anything else none.
pub open spec fn format_of(data: Seq<u8>) -> Option<ImageKind> {
    if starts_with(data, seq![0x47u8, 0x49, 0x46, 0x38, 0x39, 0x61]) || starts_with(data, seq![0x47u8, 0x49, 0x46, 0x38, 0x37, 0x61]) {
        Some(ImageKind::Gif)
    } else if data.len() >= 2 && data[0] == 0x50 && 0x31 <= data[1] <= 0x37 {
        Some(ImageKind::Pnm)
    } else if exists|i: int| 0 <= i < other_signatures().len() && #[trigger] starts_with(data, other_signatures()[i]) {
        Some(ImageKind::Other)
    } else {
        None
    }
}

/// The frames the `image` crate's GIF decoder yields for `data`.
pub uninterp spec fn gif_frames_of(data: Seq<u8>) -> Option<Seq<(u32, u32, Seq<u8>, u32, u32)>>;

/// What the `image` crate's PNM decoder yields for `data`: whether it is a
/// monochrome bitmap, and the image as RGBA.
pub uninterp spec fn pnm_of(data: Seq<u8>) -> Option<(bool, u32, u32, Seq<u8>)>;

/// What `image::load_from_memory` yields for `data`, as RGBA.
pub uninterp spec fn decoded_of(data: Seq<u8>) -> Option<(u32, u32, Seq<u8>)>;

/// Relies on `image::guess_format`, which tries its table of magic bytes in order;
/// the GIF and PNM signatures share no prefix with the others.
#[verifier::external_body]
fn guess_kind(data: &Vec<u8>) -> (r: Option<ImageKind>)
    ensures
        r == format_of(data@),
{
    match image::guess_format(data) {
        Ok(image::ImageFormat::Gif) => Some(ImageKind::Gif),
        Ok(image::ImageFormat::Pnm) => Some(ImageKind::Pnm),
        Ok(_) => Some(ImageKind::Other),
        Err(_) => None,
    }
}

/// Relies on `image::codecs::gif::GifDecoder` and `AnimationDecoder::collect_frames`:
/// every frame of the animation, in order, with its delay.
#[verifier::external_body]
fn decode_gif_frames(data: &Vec<u8>) -> (r: Result<Vec<GifFrame>, image::ImageError>)
    ensures
        r is Ok <==> gif_frames_of(data@) is Some,
        r matches Ok(fs) ==> gif_frames_of(data@) == Some(fs@.map_values(|f: GifFrame| frame_view(f))),
{
    let decoder = image::codecs::gif::GifDecoder::new(std::io::Cursor::new(data.as_slice()))?;
    let frames = decoder.into_frames().collect_frames()?;
    Ok(frames.into_iter().map(|f| {
        let (delay_numer, delay_denom) = f.delay().numer_denom_ms();
        let buf = f.into_buffer();
        GifFrame { image: DecodedImage { width: buf.width(), height: buf.height(), pixels: buf.into_raw() }, delay_numer, delay_denom }
    }).collect())
}

/// Relies on `image::codecs::pnm::PnmDecoder` and `DynamicImage::into_rgba8`: whether
/// the file is a monochrome bitmap, and its pixels as RGBA.
#[verifier::external_body]
fn decode_pnm(data: &Vec<u8>) -> (r: Result<(bool, DecodedImage), image::ImageError>)
    ensures
        r is Ok <==> pnm_of(data@) is Some,
        r matches Ok(p) ==> pnm_of(data@) == Some((p.0, p.1.width, p.1.height, p.1.pixels@)),
{
    let decoder = image::codecs::pnm::PnmDecoder::new(std::io::Cursor::new(data.as_slice()))?;
    let bitmap = matches!(decoder.subtype(), image::codecs::pnm::PnmSubtype::Bitmap(_));
    let rgba = image::DynamicImage::from_decoder(decoder)?.into_rgba8();
    Ok((bitmap, DecodedImage { width: rgba.width(), height: rgba.height(), pixels: rgba.into_raw() }))
}

/// Relies on `image::load_from_memory` and `DynamicImage::to_rgba8`: the image in
/// its guessed format, as RGBA.
#[verifier::external_body]
fn decode_rgba(data: &Vec<u8>) -> (r: Result<DecodedImage, image::ImageError>)
    ensures
        r is Ok <==> decoded_of(data@) is Some,
        r matches Ok(img) ==> decoded_of(data@) == Some(img@),
{
    let rgba = image::load_from_memory(data)?.to_rgba8();
    Ok(DecodedImage { width: rgba.width(), height: rgba.height(), pixels: rgba.into_raw() })
}

/// The outcome of selecting frame `i` among decoded `frames`.
pub open spec fn gif_outcome(frames: Option<Seq<(u32, u32, Seq<u8>, u32, u32)>>, i: int, r: Result<(DecodedImage, AnimationMeta), DecodeError>) -> bool {
    match frames {
        None => r == Err::<(DecodedImage, AnimationMeta), DecodeError>(DecodeError::Malformed),
        Some(fs) => if i >= fs.len() {
            r == Err::<(DecodedImage, AnimationMeta), DecodeError>(DecodeError::FrameOutOfRange)
        } else {
            &&& r is Ok
            &&& r.unwrap().0@ == (fs[i].0, fs[i].1, fs[i].2)
            &&& r.unwrap().1 == AnimationMeta { frame_count: fs.len() as usize, delay_numer: fs[i].3, delay_denom: fs[i].4 }
        },
    }
}

/// The outcome of decoding a PNM file `pnm`, recoloured when it is a bitmap.
pub open spec fn pnm_outcome(pnm: Option<(bool, u32, u32, Seq<u8>)>, fg: Rgba, bg: Rgba, r: Result<DecodedImage, DecodeError>) -> bool {
    match pnm {
        None => r == Err::<DecodedImage, DecodeError>(DecodeError::Malformed),
        Some((bitmap, w, h, px)) => {
            &&& r is Ok
            &&& r.unwrap().width == w
            &&& r.unwrap().height == h
            &&& if bitmap { is_bitmap_recolor(px, r.unwrap().pixels@, fg, bg) } else { r.unwrap().pixels@ == px }
        },
    }
}

/// The outcome of decoding an image of any other format.
pub open spec fn plain_outcome(d: Option<(u32, u32, Seq<u8>)>, r: Result<DecodedImage, DecodeError>) -> bool {
    match d {
        None => r == Err::<DecodedImage, DecodeError>(DecodeError::Malformed),
        Some(v) => r is Ok && r.unwrap()@ == v,
    }
}

/// Decodes every frame of a GIF and keeps frame `frame_index`, with the frame count
/// and that frame's delay.
pub fn decode_gif_image_from_reader(data: &Vec<u8>, frame_index: usize) -> (r: Result<(DecodedImage, AnimationMeta), DecodeError>)
    ensures
        gif_outcome(gif_frames_of(data@), frame_index as int, r),
{
    match decode_gif_frames(data) {
        Err(_) => Err(DecodeError::Malformed),
        Ok(mut frames) => {
            let ghost fs = frames@;
            let frame_count = frames.len();
            if frame_index >= frame_count {
                return Err(DecodeError::FrameOutOfRange);
            }
            let frame = frames.remove(frame_index);
            assert(frame_view(fs[frame_index as int]) == fs.map_values(|f: GifFrame| frame_view(f))[frame_index as int]);
            let meta = AnimationMeta { frame_count, delay_numer: frame.delay_numer, delay_denom: frame.delay_denom };
            Ok((frame.image, meta))
        },
    }
}

/// Decodes a PNM file; a monochrome bitmap has its black pixels painted
/// `foreground_color` and its white pixels `background_color`.
pub fn decode_pnm_image_from_reader(data: &Vec<u8>, foreground_color: Rgba, background_color: Rgba) -> (r: Result<DecodedImage, DecodeError>)
    ensures
        pnm_outcome(pnm_of(data@), foreground_color, background_color, r),
{
    match decode_pnm(data) {
        Err(_) => Err(DecodeError::Malformed),
        Ok((bitmap, image)) => {
            if bitmap {
                let mut image = image;
                apply_bitmap_colors(&mut image.pixels, foreground_color, background_color);
                Ok(image)
            } else {
                Ok(image)
            }
        },
    }
}

/// Decodes an image of a format other than GIF and PNM, as guessed from its bytes;
/// this is also how the rasterizer's JPEG output is read back.
pub fn decode_plain_image(data: &Vec<u8>) -> (r: Result<DecodedImage, DecodeError>)
    ensures
        plain_outcome(decoded_of(data@), r),
{
    match decode_rgba(data) {
        Err(_) => Err(DecodeError::Malformed),
        Ok(image) => Ok(image),
    }
}

/// A primary-path result read as a GIF result: the metadata must be present.
pub open spec fn as_gif_result(r: Result<(DecodedImage, Option<AnimationMeta>), DecodeError>) -> Result<(DecodedImage, AnimationMeta), DecodeError> {
    match r {
        Ok((img, Some(m))) => Ok((img, m)),
        Ok((_, None)) => Err(DecodeError::Malformed),
        Err(e) => Err(e),
    }
}

/// A primary-path result read as a single-image result, metadata dropped.
pub open spec fn as_plain_result(r: Result<(DecodedImage, Option<AnimationMeta>), DecodeError>) -> Result<DecodedImage, DecodeError> {
    match r {
        Ok((img, _)) => Ok(img),
        Err(e) => Err(e),
    }
}

/// The outcome of the primary decoding path for `data`: the format decides which
/// decoder's outcome holds; only GIF carries metadata.
pub open spec fn decode_outcome(data: Seq<u8>, frame_index: int, fg: Rgba, bg: Rgba, r: Result<(DecodedImage, Option<AnimationMeta>), DecodeError>) -> bool {
    match format_of(data) {
        None => r == Err::<(DecodedImage, Option<AnimationMeta>), DecodeError>(DecodeError::UnsupportedFormat),
        Some(ImageKind::Gif) => {
            &&& (r matches Ok(v) ==> v.1 is Some)
            &&& gif_outcome(gif_frames_of(data), frame_index, as_gif_result(r))
        },
        Some(ImageKind::Pnm) => {
            &&& (r matches Ok(v) ==> v.1 is None)
            &&& pnm_outcome(pnm_of(data), fg, bg, as_plain_result(r))
        },
        Some(ImageKind::Other) => {
            &&& (r matches Ok(v) ==> v.1 is None)
            &&& plain_outcome(decoded_of(data), as_plain_result(r))
        },
    }
}

/// What loading yields from the primary result and, when that failed, the result of
/// decoding the rasterizer's output (`None` when the rasterizer failed): the
/// fallback is used only after a primary failure, and never carries metadata.
pub open spec fn loaded_spec(
    primary: Result<(DecodedImage, Option<AnimationMeta>), DecodeError>,
    fallback: Option<Result<DecodedImage, DecodeError>>,
) -> Option<(DecodedImage, Option<AnimationMeta>)> {
    match primary {
        Ok(v) => Some(v),
        Err(_) => match fallback {
            Some(Ok(img)) => Some((img, None)),
            _ => None,
        },
    }
}

/// Whether the fallback rasterization must be tried after the primary result.
pub fn needs_fallback(primary: &Result<(DecodedImage, Option<AnimationMeta>), DecodeError>) -> (r: bool)
    ensures
        r == primary is Err,
{
    primary.is_err()
}

/// The loaded image, as `loaded_spec` says.
pub fn choose_loaded(
    primary: Result<(DecodedImage, Option<AnimationMeta>), DecodeError>,
    fallback: Option<Result<DecodedImage, DecodeError>>,
) -> (r: Option<(DecodedImage, Option<AnimationMeta>)>)
    ensures
        r == loaded_spec(primary, fallback),
{
    match primary {
        Ok(v) => Some(v),
        Err(_) => match fallback {
            Some(Ok(img)) => Some((img, None)),
            _ => None,
        },
    }
}

/// The primary decoding path: guesses the format from the bytes and dispatches.
/// Only GIF carries animation metadata.
pub fn decode_image_from_reader(data: &Vec<u8>, frame_index: usize, foreground_color: Rgba, background_color: Rgba) -> (r: Result<(DecodedImage, Option<AnimationMeta>), DecodeError>)
    ensures
        decode_outcome(data@, frame_index as int, foreground_color, background_color, r),
{
    match guess_kind(data) {
        None => Err(DecodeError::UnsupportedFormat),
        Some(ImageKind::Gif) => match decode_gif_image_from_reader(data, frame_index) {
            Ok((image, meta)) => Ok((image, Some(meta))),
            Err(e) => Err(e),
        },
        Some(ImageKind::Pnm) => match decode_pnm_image_from_reader(data, foreground_color, background_color) {
            Ok(image) => Ok((image, None)),
            Err(e) => Err(e),
        },
        Some(ImageKind::Other) => match decode_plain_image(data) {
            Ok(image) => Ok((image, None)),
            Err(e) => Err(e),
        },
    }
}

} // verus!
