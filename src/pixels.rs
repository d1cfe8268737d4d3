//! Decoded pixel buffers and colour remapping.
use vstd::prelude::*;

verus! {

/// An 8-bit RGBA colour.
#[derive(Debug, PartialEq, Eq, Structural, Clone, Copy)]
pub struct Rgba {
    pub r: u8,
    pub g: u8,
    pub b: u8,
    pub a: u8,
}

/// Opaque pure black.
pub open spec fn black_pixel() -> Rgba {
    Rgba { r: 0, g: 0, b: 0, a: 255 }
}

/// Opaque pure white.
pub open spec fn white_pixel() -> Rgba {
    Rgba { r: 255, g: 255, b: 255, a: 255 }
}

/// A decoded image: `width * height` pixels, four bytes each, row by row.
pub struct DecodedImage {
    pub width: u32,
    pub height: u32,
    pub pixels: Vec<u8>,
}

impl DecodedImage {
    pub open spec fn wf(&self) -> bool {
        self.pixels@.len() == 4 * (self.width as int) * (self.height as int)
    }
}

impl View for DecodedImage {
    type V = (u32, u32, Seq<u8>);

    open spec fn view(&self) -> (u32, u32, Seq<u8>) {
        (self.width, self.height, self.pixels@)
    }
}

/// The pixel that starts at byte `4 * p` of `s`.
pub open spec fn pixel_at(s: Seq<u8>, p: int) -> Rgba {
    Rgba { r: s[4 * p], g: s[4 * p + 1], b: s[4 * p + 2], a: s[4 * p + 3] }
}

/// A monochrome bitmap's colouring of one pixel: black becomes the foreground,
/// white the background, any other colour stays.
pub open spec fn remap_pixel(p: Rgba, foreground: Rgba, background: Rgba) -> Rgba {
    if p == black_pixel() {
        foreground
    } else if p == white_pixel() {
        background
    } else {
        p
    }
}

/// Whether `dst` is the monochrome-bitmap colouring of `src`: each whole pixel is
/// remapped, and trailing bytes that form no whole pixel stay.
pub open spec fn is_bitmap_recolor(src: Seq<u8>, dst: Seq<u8>, foreground: Rgba, background: Rgba) -> bool {
    &&& dst.len() == src.len()
    &&& forall|p: int| 0 <= p < src.len() / 4 ==>
            #[trigger] pixel_at(dst, p) == remap_pixel(pixel_at(src, p), foreground, background)
    &&& forall|j: int| 4 * (src.len() / 4) <= j < src.len() ==> #[trigger] dst[j] == src[j]
}

/// Recolours a monochrome bitmap in place: every pure black pixel becomes exactly
/// `foreground`, every pure white pixel exactly `background`, all others stay.
pub fn apply_bitmap_colors(pixels: &mut Vec<u8>, foreground: Rgba, background: Rgba)
    ensures
        is_bitmap_recolor(old(pixels)@, final(pixels)@, foreground, background),
{
    let ghost orig = pixels@;
    let n: usize = pixels.len() / 4;
    let mut q: usize = 0;
    while q < n
        invariant
            n == orig.len() / 4,
            pixels@.len() == orig.len(),
            q <= n,
            orig.len() <= usize::MAX,
            forall|p: int| 0 <= p < q ==> #[trigger] pixel_at(pixels@, p) == remap_pixel(pixel_at(orig, p), foreground, background),
            forall|j: int| 4 * q <= j < orig.len() ==> pixels@[j] == orig[j],
        decreases n - q,
    {
        let ghost before = pixels@;
        let i: usize = 4 * q;
        let cur = Rgba { r: pixels[i], g: pixels[i + 1], b: pixels[i + 2], a: pixels[i + 3] };
        assert(cur == pixel_at(orig, q as int));
        let new_pixel = if cur.r == 0 && cur.g == 0 && cur.b == 0 && cur.a == 255 {
            foreground
        } else if cur.r == 255 && cur.g == 255 && cur.b == 255 && cur.a == 255 {
            background
        } else {
            cur
        };
        pixels.set(i, new_pixel.r);
        pixels.set(i + 1, new_pixel.g);
        pixels.set(i + 2, new_pixel.b);
        pixels.set(i + 3, new_pixel.a);
        proof {
            assert forall|p: int| 0 <= p < q + 1 implies #[trigger] pixel_at(pixels@, p) == remap_pixel(pixel_at(orig, p), foreground, background) by {
                if p < q {
                    assert(pixel_at(pixels@, p) == pixel_at(before, p));
                }
            }
        }
        q = q + 1;
    }
}

} // verus!
