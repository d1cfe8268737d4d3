use std::io::Cursor;

use image::AnimationDecoder;
use wrbridge::decode::{choose_loaded, needs_fallback, decode_gif_image_from_reader, decode_image_from_reader, decode_plain_image, decode_pnm_image_from_reader, AnimationMeta, DecodeError};
use wrbridge::pixels::{apply_bitmap_colors, DecodedImage, Rgba};
use wrbridge::texture::{animation_frame_meta_to_lisp_data, can_use_native_image_api, define_image, existing_image_key, transform_image, ImageKey, ImageRecord, ImageType, MetaEntry, WrPixmap};

const FG: Rgba = Rgba { r: 10, g: 20, b: 30, a: 255 };
const BG: Rgba = Rgba { r: 200, g: 210, b: 220, a: 255 };

fn sample_pixels(w: u32, h: u32) -> Vec<u8> {
    let mut v = Vec::new();
    for y in 0..h {
        for x in 0..w {
            v.extend_from_slice(&[(x * 40) as u8, (y * 50) as u8, (x + y) as u8 * 7, 255]);
        }
    }
    v
}

fn png_bytes(w: u32, h: u32, pixels: Vec<u8>) -> Vec<u8> {
    let img = image::RgbaImage::from_raw(w, h, pixels).unwrap();
    let mut out = Vec::new();
    image::DynamicImage::ImageRgba8(img).write_to(&mut Cursor::new(&mut out), image::ImageOutputFormat::Png).unwrap();
    out
}

fn two_frame_gif() -> Vec<u8> {
    let mut out = Vec::new();
    {
        let mut enc = image::codecs::gif::GifEncoder::new(&mut out);
        let red = image::RgbaImage::from_pixel(2, 2, image::Rgba([255, 0, 0, 255]));
        let blue = image::RgbaImage::from_pixel(2, 2, image::Rgba([0, 0, 255, 255]));
        let f0 = image::Frame::from_parts(red, 0, 0, image::Delay::from_numer_denom_ms(100, 1));
        let f1 = image::Frame::from_parts(blue, 0, 0, image::Delay::from_numer_denom_ms(250, 1));
        enc.encode_frames(vec![f0, f1]).unwrap();
    }
    out
}

#[test]
fn png_round_trip_is_lossless() {
    let pixels = sample_pixels(3, 2);
    let data = png_bytes(3, 2, pixels.clone());
    let (img, meta) = decode_image_from_reader(&data, 0, FG, BG).unwrap();
    assert_eq!((img.width, img.height), (3, 2));
    assert_eq!(img.pixels, pixels);
    assert!(meta.is_none());
    let plain = decode_plain_image(&data).unwrap();
    assert_eq!(plain.pixels, pixels);
}

#[test]
fn gif_second_frame_with_count_and_delay() {
    let data = two_frame_gif();
    let (img, meta) = decode_image_from_reader(&data, 1, FG, BG).unwrap();
    let frames = image::codecs::gif::GifDecoder::new(Cursor::new(&data[..])).unwrap().into_frames().collect_frames().unwrap();
    let (numer, denom) = frames[1].delay().numer_denom_ms();
    let direct = frames[1].clone().into_buffer();
    let meta = meta.unwrap();
    assert_eq!(meta.frame_count, 2);
    assert_eq!((meta.delay_numer, meta.delay_denom), (numer, denom));
    assert_eq!(numer as f64 / denom as f64, 250.0);
    assert_eq!((img.width, img.height), (2, 2));
    assert_eq!(img.pixels, direct.into_raw());
    assert_eq!(&img.pixels[0..4], &[0, 0, 255, 255]);
}

#[test]
fn gif_frame_index_out_of_range() {
    let data = two_frame_gif();
    assert_eq!(decode_gif_image_from_reader(&data, 2).err(), Some(DecodeError::FrameOutOfRange));
    assert_eq!(decode_image_from_reader(&data, 5, FG, BG).err(), Some(DecodeError::FrameOutOfRange));
    let (first, meta) = decode_gif_image_from_reader(&data, 0).unwrap();
    assert_eq!(meta.frame_count, 2);
    assert_eq!(&first.pixels[0..4], &[255, 0, 0, 255]);
}

/// A PNM file of the given ASCII subtype digit with `body` after its magic line.
fn pnm(kind: u8, body: &[u8]) -> Vec<u8> {
    let mut data = vec![b'P', kind, b'\n'];
    data.extend_from_slice(body);
    data
}

#[test]
fn pbm_bitmap_takes_foreground_and_background() {
    let data = pnm(b'1', b"2 1\n1 0\n");
    let (img, meta) = decode_image_from_reader(&data, 0, FG, BG).unwrap();
    assert!(meta.is_none());
    assert_eq!(img.pixels, vec![10, 20, 30, 255, 200, 210, 220, 255]);
    let direct = decode_pnm_image_from_reader(&data, FG, BG).unwrap();
    assert_eq!(direct.pixels, img.pixels);
}

#[test]
fn pgm_greymap_is_not_recoloured() {
    let data = pnm(b'2', b"2 1\n255\n0 255\n");
    let img = decode_pnm_image_from_reader(&data, FG, BG).unwrap();
    assert_eq!(img.pixels, vec![0, 0, 0, 255, 255, 255, 255, 255]);
}

#[test]
fn unknown_bytes_are_unsupported() {
    let data = b"<svg>not an image</svg>".to_vec();
    assert_eq!(decode_image_from_reader(&data, 0, FG, BG).err(), Some(DecodeError::UnsupportedFormat));
    assert_eq!(decode_plain_image(&data).err(), Some(DecodeError::Malformed));
}

#[test]
fn truncated_png_is_malformed() {
    let mut data = png_bytes(2, 2, sample_pixels(2, 2));
    data.truncate(20);
    assert_eq!(decode_image_from_reader(&data, 0, FG, BG).err(), Some(DecodeError::Malformed));
}

#[test]
fn bitmap_remap_changes_only_black_and_white() {
    let mut px = vec![0, 0, 0, 255, 255, 255, 255, 255, 0, 0, 0, 128, 1, 2, 3, 4, 9];
    apply_bitmap_colors(&mut px, FG, BG);
    assert_eq!(px, vec![10, 20, 30, 255, 200, 210, 220, 255, 0, 0, 0, 128, 1, 2, 3, 4, 9]);
}

fn pixmap(w: u32, h: u32) -> WrPixmap {
    WrPixmap { image_key: ImageKey { namespace: 1, id: 2 }, image_buffer: DecodedImage { width: w, height: h, pixels: sample_pixels(w, h) } }
}

fn reference_transform(w: u32, h: u32, nw: u32, nh: u32) -> image::RgbaImage {
    let src = image::RgbaImage::from_raw(w, h, sample_pixels(w, h)).unwrap();
    image::imageops::resize(&src, nw, nh, image::imageops::FilterType::Lanczos3)
}

#[test]
fn rotate_ninety_swaps_dimensions_from_source() {
    let p = pixmap(4, 3);
    let out = transform_image(&p, 4, 3, 90);
    assert_eq!((out.width, out.height), (3, 4));
    let expected = image::imageops::rotate90(&reference_transform(4, 3, 4, 3));
    assert_eq!(out.pixels, expected.into_raw());
    let again = transform_image(&p, 4, 3, 90);
    assert_eq!(again.pixels, out.pixels);
    assert_eq!(p.image_buffer.pixels, sample_pixels(4, 3));
}

#[test]
fn resize_then_rotate_uses_requested_size() {
    let p = pixmap(4, 3);
    let out = transform_image(&p, 6, 2, 90);
    assert_eq!((out.width, out.height), (2, 6));
    let expected = image::imageops::rotate90(&reference_transform(4, 3, 6, 2));
    assert_eq!(out.pixels, expected.into_raw());
}

#[test]
fn other_rotations() {
    let p = pixmap(3, 2);
    let r180 = transform_image(&p, 3, 2, 180);
    assert_eq!((r180.width, r180.height), (3, 2));
    assert_eq!(&r180.pixels[0..4], &p.image_buffer.pixels[20..24]);
    let r270 = transform_image(&p, 3, 2, 270);
    assert_eq!((r270.width, r270.height), (2, 3));
    let r45 = transform_image(&p, 3, 2, 45);
    assert_eq!(r45.pixels, p.image_buffer.pixels);
}

#[test]
fn meta_list_keeps_positive_values_delay_first() {
    let m = AnimationMeta { frame_count: 2, delay_numer: 250, delay_denom: 1 };
    assert_eq!(animation_frame_meta_to_lisp_data(Some(m)), vec![MetaEntry::Delay { numer: 250, denom: 1 }, MetaEntry::Count(2)]);
    let zero = AnimationMeta { frame_count: 0, delay_numer: 0, delay_denom: 1 };
    assert!(animation_frame_meta_to_lisp_data(Some(zero)).is_empty());
    assert!(animation_frame_meta_to_lisp_data(None).is_empty());
    let count_only = AnimationMeta { frame_count: 3, delay_numer: 0, delay_denom: 1 };
    assert_eq!(animation_frame_meta_to_lisp_data(Some(count_only)), vec![MetaEntry::Count(3)]);
}

#[test]
fn native_image_types() {
    assert!(can_use_native_image_api(ImageType::Png));
    assert!(can_use_native_image_api(ImageType::Xpm));
    assert!(can_use_native_image_api(ImageType::NativeImage));
    assert!(!can_use_native_image_api(ImageType::Other));
}

#[test]
fn slot_replacement_keeps_existing_key() {
    let mut slot: Option<WrPixmap> = None;
    assert_eq!(existing_image_key(&slot), None);
    let fresh = ImageKey { namespace: 1, id: 2 };
    let one = DecodedImage { width: 1, height: 1, pixels: vec![1, 2, 3, 4] };
    assert!(define_image(&mut slot, one, fresh).is_none());
    assert_eq!(existing_image_key(&slot), Some(fresh));
    let two = DecodedImage { width: 2, height: 1, pixels: vec![5; 8] };
    let old = define_image(&mut slot, two, ImageKey { namespace: 1, id: 9 }).unwrap();
    assert_eq!(old.image_key, fresh);
    assert_eq!(old.image_buffer.pixels, vec![1, 2, 3, 4]);
    assert_eq!(existing_image_key(&slot), Some(fresh));
    assert_eq!(slot.as_ref().unwrap().image_buffer.width, 2);
}

#[test]
fn image_record_keeps_source_and_metadata_across_transforms() {
    let mut rec = ImageRecord::new();
    let key = ImageKey { namespace: 1, id: 5 };
    let meta = AnimationMeta { frame_count: 2, delay_numer: 40, delay_denom: 1 };
    let src = DecodedImage { width: 4, height: 3, pixels: sample_pixels(4, 3) };
    assert!(rec.install_loaded(src, Some(meta), key).is_none());
    assert_eq!((rec.width, rec.height), (4, 3));
    assert_eq!(rec.lisp_data, vec![MetaEntry::Delay { numer: 40, denom: 1 }, MetaEntry::Count(2)]);
    let first = transform_image(rec.pixmap.as_ref().unwrap(), 8, 6, 90);
    rec.install_transformed(&first);
    assert_eq!((rec.width, rec.height), (6, 8));
    let second = transform_image(rec.pixmap.as_ref().unwrap(), 4, 3, 90);
    rec.install_transformed(&second);
    assert_eq!((rec.width, rec.height), (3, 4));
    let direct = image::imageops::rotate90(&reference_transform(4, 3, 4, 3));
    assert_eq!(second.pixels, direct.into_raw());
    assert_eq!(rec.pixmap.as_ref().unwrap().image_buffer.pixels, sample_pixels(4, 3));
    assert_eq!(rec.lisp_data.len(), 2);
    let replaced = rec.install_loaded(DecodedImage { width: 1, height: 1, pixels: vec![0, 0, 0, 255] }, None, ImageKey { namespace: 1, id: 6 }).unwrap();
    assert_eq!(replaced.image_key, key);
    assert_eq!(rec.pixmap.as_ref().unwrap().image_key, key);
    assert_eq!((rec.width, rec.height), (1, 1));
    assert!(rec.lisp_data.is_empty());
}

#[test]
fn fallback_only_after_primary_failure_and_without_metadata() {
    let meta = AnimationMeta { frame_count: 2, delay_numer: 10, delay_denom: 1 };
    let primary = Ok((DecodedImage { width: 1, height: 1, pixels: vec![1, 1, 1, 1] }, Some(meta)));
    assert!(!needs_fallback(&primary));
    let fallback = Some(Ok(DecodedImage { width: 2, height: 1, pixels: vec![0; 8] }));
    let (img, m) = choose_loaded(primary, fallback).unwrap();
    assert_eq!((img.width, m), (1, Some(meta)));
    let failed: Result<(DecodedImage, Option<AnimationMeta>), DecodeError> = Err(DecodeError::UnsupportedFormat);
    assert!(needs_fallback(&failed));
    let fallback = Some(Ok(DecodedImage { width: 2, height: 1, pixels: vec![0; 8] }));
    let (img, m) = choose_loaded(failed, fallback).unwrap();
    assert_eq!((img.width, m), (2, None));
    assert!(choose_loaded(Err(DecodeError::Malformed), Some(Err(DecodeError::Malformed))).is_none());
    assert!(choose_loaded(Err(DecodeError::Malformed), None).is_none());
}

#[test]
fn truncated_gif_header_is_malformed_not_unsupported() {
    let data = b"GIF89a\x01".to_vec();
    assert_eq!(decode_image_from_reader(&data, 0, FG, BG).err(), Some(DecodeError::Malformed));
    let bmp_magic = b"BMxx".to_vec();
    assert_eq!(decode_image_from_reader(&bmp_magic, 0, FG, BG).err(), Some(DecodeError::Malformed));
}
