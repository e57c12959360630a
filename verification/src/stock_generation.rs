//! Stock icon composition: the face of a skin, reduced to a small palette and
//! laid over a fixed outline.

use crate::error::AssetError;
use crate::raster::{lemma_mapped, lemma_with_pixel, Image, ImageView, Rect, Rgba};
use vstd::prelude::*;

verus! {

/// An opaque colour.
#[derive(Clone, Copy, Debug, PartialEq, Eq, Structural)]
pub struct Color {
    pub r: u8,
    pub g: u8,
    pub b: u8,
}

/// Side of the face on the icon, in pixels.
pub const FACE_SIZE: u32 = 40;

/// Where the face sits on the outline, from its left and from its top.
pub const FACE_OFFSET: u32 = 12;

/// The most colours a palette holds.
pub const PALETTE_COLORS: u8 = 10;

/// Sampling step of palette extraction: lower is more accurate and slower.
pub const PALETTE_QUALITY: u8 = 4;

/// The colour of a pixel, without its alpha.
pub open spec fn color_of(p: Rgba) -> Color {
    Color { r: p.r, g: p.g, b: p.b }
}

/// Squared Euclidean distance of two colours.
pub open spec fn distance_sq(x: Color, y: Color) -> int {
    (y.r - x.r) * (y.r - x.r) + (y.g - x.g) * (y.g - x.g) + (y.b - x.b) * (y.b - x.b)
}

/// Whether entry `i` is the first entry of `palette` at the least distance from `c`.
pub open spec fn is_nearest(palette: Seq<Color>, c: Color, i: int) -> bool {
    &&& 0 <= i < palette.len()
    &&& forall|j: int| 0 <= j < palette.len() ==> distance_sq(palette[i], c) <= distance_sq(#[trigger] palette[j], c)
    &&& forall|j: int| 0 <= j < i ==> distance_sq(palette[i], c) < distance_sq(#[trigger] palette[j], c)
}

/// Index of the palette entry nearest to `c`, the first one among equals.
pub open spec fn nearest_index(palette: Seq<Color>, c: Color) -> int {
    choose|i: int| is_nearest(palette, c, i)
}

/// At most one entry is the first nearest one.
pub proof fn lemma_nearest_unique(palette: Seq<Color>, c: Color, i: int, j: int)
    requires
        is_nearest(palette, c, i),
        is_nearest(palette, c, j),
    ensures
        i == j,
{
    if i < j {
        assert(distance_sq(palette[j], c) < distance_sq(palette[i], c));
    } else if j < i {
        assert(distance_sq(palette[i], c) < distance_sq(palette[j], c));
    }
}

/// Squared Euclidean distance of two colours. Ordering colours by it is
/// ordering them by their Euclidean distance.
pub fn color_distance(x: Color, y: Color) -> (d: u32)
    ensures
        d == distance_sq(x, y),
        d <= 3 * 255 * 255,
{
    let dr: u32 = if y.r >= x.r {
        (y.r - x.r) as u32
    } else {
        (x.r - y.r) as u32
    };
    let dg: u32 = if y.g >= x.g {
        (y.g - x.g) as u32
    } else {
        (x.g - y.g) as u32
    };
    let db: u32 = if y.b >= x.b {
        (y.b - x.b) as u32
    } else {
        (x.b - y.b) as u32
    };
    assert(dr * dr <= 255 * 255 && dg * dg <= 255 * 255 && db * db <= 255 * 255) by (nonlinear_arith)
        requires
            dr <= 255,
            dg <= 255,
            db <= 255,
    ;
    assert(dr * dr == (y.r - x.r) * (y.r - x.r) && dg * dg == (y.g - x.g) * (y.g - x.g) && db * db == (y.b
        - x.b) * (y.b - x.b)) by (nonlinear_arith)
        requires
            dr == y.r - x.r || dr == x.r - y.r,
            dg == y.g - x.g || dg == x.g - y.g,
            db == y.b - x.b || db == x.b - y.b,
    ;
    dr * dr + dg * dg + db * db
}

/// The palette entry nearest to `c`; of several at the same distance, the first.
pub fn closest_color(palette: &Vec<Color>, c: Color) -> (best: Color)
    requires
        palette@.len() > 0,
    ensures
        is_nearest(palette@, c, nearest_index(palette@, c)),
        best == palette@[nearest_index(palette@, c)],
{
    let mut at: usize = 0;
    let mut least: u32 = color_distance(palette[0], c);
    let mut k: usize = 1;
    while k < palette.len()
        invariant
            1 <= k <= palette@.len(),
            0 <= at < k,
            least == distance_sq(palette@[at as int], c),
            forall|j: int| 0 <= j < k ==> least <= distance_sq(#[trigger] palette@[j], c),
            forall|j: int| 0 <= j < at ==> least < distance_sq(#[trigger] palette@[j], c),
        decreases palette@.len() - k,
    {
        let d = color_distance(palette[k], c);
        if d < least {
            at = k;
            least = d;
        }
        k += 1;
    }
    proof {
        assert(is_nearest(palette@, c, at as int));
        lemma_nearest_unique(palette@, c, at as int, nearest_index(palette@, c));
    }
    palette[at]
}

/// A pixel recoloured with the palette entry nearest to it; alpha is kept.
pub open spec fn recolored(p: Rgba, palette: Seq<Color>) -> Rgba {
    let c = palette[nearest_index(palette, color_of(p))];
    Rgba { r: c.r, g: c.g, b: c.b, a: p.a }
}

/// The image with every pixel recoloured from the palette.
pub open spec fn quantized(v: ImageView, palette: Seq<Color>) -> ImageView {
    v.mapped(|p: Rgba| recolored(p, palette))
}

/// A recoloured pixel shows a colour of the palette and keeps its alpha.
pub proof fn lemma_recolored_from_palette(p: Rgba, palette: Seq<Color>)
    requires
        palette.len() > 0,
    ensures
        recolored(p, palette).a == p.a,
        exists|i: int| 0 <= i < palette.len() && color_of(recolored(p, palette)) == #[trigger] palette[i],
{
    lemma_nearest_exists(palette, color_of(p));
    let i = nearest_index(palette, color_of(p));
    assert(color_of(recolored(p, palette)) == palette[i]);
}

/// A palette that is not empty has a first nearest entry for every colour.
pub proof fn lemma_nearest_exists(palette: Seq<Color>, c: Color)
    requires
        palette.len() > 0,
    ensures
        is_nearest(palette, c, nearest_index(palette, c)),
{
    let i = first_nearest(palette, c, palette.len() as int);
    lemma_first_nearest(palette, c, palette.len() as int);
    assert(is_nearest(palette, c, i));
}

/// The first nearest entry among the first `n`.
spec fn first_nearest(palette: Seq<Color>, c: Color, n: int) -> int
    decreases n,
{
    if n <= 1 {
        0
    } else {
        let i = first_nearest(palette, c, n - 1);
        if distance_sq(palette[n - 1], c) < distance_sq(palette[i], c) {
            n - 1
        } else {
            i
        }
    }
}

proof fn lemma_first_nearest(palette: Seq<Color>, c: Color, n: int)
    requires
        1 <= n <= palette.len(),
    ensures
        0 <= first_nearest(palette, c, n) < n,
        forall|j: int|
            0 <= j < n ==> distance_sq(palette[first_nearest(palette, c, n)], c) <= distance_sq(
                #[trigger] palette[j],
                c,
            ),
        forall|j: int|
            0 <= j < first_nearest(palette, c, n) ==> distance_sq(palette[first_nearest(palette, c, n)], c)
                < distance_sq(#[trigger] palette[j], c),
    decreases n,
{
    if n > 1 {
        lemma_first_nearest(palette, c, n - 1);
    }
}

/// Recolours every pixel of the image with the palette entry nearest to it;
/// alpha is kept.
pub fn quantize(face: &mut Image, palette: &Vec<Color>)
    requires
        old(face)@.wf(),
        palette@.len() > 0,
    ensures
        final(face)@ == quantized(old(face)@, palette@),
        final(face)@.wf(),
        final(face)@.same_size(old(face)@),
        forall|x: int, y: int|
            old(face)@.in_bounds(x, y) ==> #[trigger] final(face)@.pixel(x, y) == recolored(
                old(face)@.pixel(x, y),
                palette@,
            ),
        forall|x: int, y: int|
            old(face)@.in_bounds(x, y) ==> ({
                let p = #[trigger] final(face)@.pixel(x, y);
                p.a == old(face)@.pixel(x, y).a && exists|i: int|
                    0 <= i < palette@.len() && color_of(p) == #[trigger] palette@[i]
            }),
{
    let ghost before = face@;
    let width = face.width();
    let height = face.height();
    let mut y: u32 = 0;
    while y < height
        invariant
            before.wf(),
            face@.wf(),
            face@.same_size(before),
            palette@.len() > 0,
            width == before.width,
            height == before.height,
            y <= height,
            forall|px: int, py: int|
                before.in_bounds(px, py) ==> #[trigger] face@.pixel(px, py) == (if py < y {
                    recolored(before.pixel(px, py), palette@)
                } else {
                    before.pixel(px, py)
                }),
        decreases height - y,
    {
        let mut x: u32 = 0;
        while x < width
            invariant
                before.wf(),
                face@.wf(),
                face@.same_size(before),
                palette@.len() > 0,
                width == before.width,
                height == before.height,
                y < height,
                x <= width,
                forall|px: int, py: int|
                    before.in_bounds(px, py) ==> #[trigger] face@.pixel(px, py) == (if py < y || (py == y
                        && px < x) {
                        recolored(before.pixel(px, py), palette@)
                    } else {
                        before.pixel(px, py)
                    }),
            decreases width - x,
        {
            let p = face.get_pixel(x, y);
            let closest = closest_color(palette, Color { r: p.r, g: p.g, b: p.b });
            let q = Rgba { r: closest.r, g: closest.g, b: closest.b, a: p.a };
            let ghost mid = face@;
            face.put_pixel(x, y, q);
            proof {
                lemma_with_pixel(mid, x as int, y as int, q);
            }
            x += 1;
        }
        y += 1;
    }
    proof {
        assert forall|px: int, py: int| before.in_bounds(px, py) implies {
            let p = #[trigger] face@.pixel(px, py);
            p.a == before.pixel(px, py).a && exists|i: int|
                0 <= i < palette@.len() && color_of(p) == #[trigger] palette@[i]
        } by {
            lemma_recolored_from_palette(before.pixel(px, py), palette@);
        }
        lemma_mapped(before, |p: Rgba| recolored(p, palette@));
    }
}

/// What nearest-neighbour resizing of a `width` by `height` RGBA buffer to
/// `new_width` by `new_height` gives.
pub uninterp spec fn resized_nearest(
    pixels: Seq<u8>,
    width: u32,
    height: u32,
    new_width: u32,
    new_height: u32,
) -> Seq<u8>;

/// The palette that median-cut extraction finds in an RGBA buffer, or `None`
/// where it finds none.
pub uninterp spec fn extracted_palette(pixels: Seq<u8>, quality: u8, max_colors: u8) -> Option<Seq<Color>>;

/// What alpha-compositing the `top` buffer over the `bottom` buffer, with its
/// top-left corner at `(x, y)`, leaves in the bottom buffer.
pub uninterp spec fn overlaid(
    bottom: Seq<u8>,
    bottom_width: u32,
    bottom_height: u32,
    top: Seq<u8>,
    top_width: u32,
    top_height: u32,
    x: u32,
    y: u32,
) -> Seq<u8>;

/// Calls `image::imageops::resize` with the nearest-neighbour filter. Trusted:
/// the result is a function of the arguments and has four bytes for each pixel
/// of the new size. The source must not be empty, and the new size and the
/// intermediate buffer (old width, new height) must be allocatable.
#[verifier::external_body]
fn resize_nearest(img: &Image, new_width: u32, new_height: u32) -> (out: Vec<u8>)
    requires
        img@.wf(),
        img@.width > 0,
        img@.height > 0,
        new_width * new_height * 4 <= Image::max_bytes(),
        img@.width * new_height * 4 <= Image::max_bytes(),
    ensures
        out@ == resized_nearest(img@.pixels, img@.width as u32, img@.height as u32, new_width, new_height),
        out@.len() == new_width * new_height * 4,
{
    let source = ::image::RgbaImage::from_raw(img.width(), img.height(), img.as_raw().clone()).unwrap();
    ::image::imageops::resize(&source, new_width, new_height, ::image::imageops::FilterType::Nearest)
        .into_raw()
}

/// Calls `color_thief::get_palette` on an RGBA buffer. Trusted: the result is
/// a function of the arguments. The outside function asserts the two ranges
/// required here; the bound on the buffer keeps its 32-bit counters in range.
#[verifier::external_body]
fn get_palette(pixels: &Vec<u8>, quality: u8, max_colors: u8) -> (r: Option<Vec<Color>>)
    requires
        1 <= quality <= 10,
        max_colors >= 2,
        pixels@.len() <= 0x40_0000,
    ensures
        r matches Some(p) ==> extracted_palette(pixels@, quality, max_colors) == Some(p@),
        r is None ==> extracted_palette(pixels@, quality, max_colors) is None,
{
    match ::color_thief::get_palette(pixels, ::color_thief::ColorFormat::Rgba, quality, max_colors) {
        Ok(colors) => Some(colors.iter().map(|c| Color { r: c.r, g: c.g, b: c.b }).collect()),
        Err(_) => None,
    }
}

/// The bottom image with the given bytes in place of its own.
pub open spec fn with_bytes(bottom: ImageView, bytes: Seq<u8>) -> ImageView {
    ImageView { width: bottom.width, height: bottom.height, pixels: bytes }
}

/// Calls `image::imageops::overlay`. Trusted: the result is a function of the
/// arguments and is as long as the bottom buffer, and every pixel of the
/// bottom that the top, laid at `(x, y)`, does not cover is left as it was.
#[verifier::external_body]
fn overlay(bottom: &Image, top: &Image, x: u32, y: u32) -> (out: Vec<u8>)
    requires
        bottom@.wf(),
        top@.wf(),
    ensures
        out@ == overlaid(
            bottom@.pixels,
            bottom@.width as u32,
            bottom@.height as u32,
            top@.pixels,
            top@.width as u32,
            top@.height as u32,
            x,
            y,
        ),
        out@.len() == bottom@.pixels.len(),
        forall|px: int, py: int|
            bottom@.in_bounds(px, py) && !(x <= px < x + top@.width && y <= py < y + top@.height)
                ==> #[trigger] with_bytes(bottom@, out@).pixel(px, py) == bottom@.pixel(px, py),
{
    let mut under = ::image::RgbaImage::from_raw(bottom.width(), bottom.height(), bottom.as_raw().clone())
        .unwrap();
    let over = ::image::RgbaImage::from_raw(top.width(), top.height(), top.as_raw().clone()).unwrap();
    ::image::imageops::overlay(&mut under, &over, x, y);
    under.into_raw()
}

/// The face of a skin: the square of 8 by 8 base units at (8, 8).
pub open spec fn face_rect(v: ImageView) -> Rect {
    let s = (v.width / 64) as u32;
    Rect { x: (8 * s) as u32, y: (8 * s) as u32, width: (8 * s) as u32, height: (8 * s) as u32 }
}

/// The face of a skin, cut out and resized to the icon's face size.
pub open spec fn icon_face(v: ImageView) -> ImageView {
    let r = face_rect(v);
    ImageView {
        width: FACE_SIZE as nat,
        height: FACE_SIZE as nat,
        pixels: resized_nearest(v.cropped(r).pixels, r.width, r.height, FACE_SIZE, FACE_SIZE),
    }
}

/// The palette of the icon's face, where extraction finds at least one
/// colour: the first ten of the colours it finds.
pub open spec fn icon_palette(v: ImageView) -> Option<Seq<Color>> {
    match extracted_palette(icon_face(v).pixels, PALETTE_QUALITY, PALETTE_COLORS) {
        Some(p) => if p.len() == 0 {
            None
        } else if p.len() > PALETTE_COLORS {
            Some(p.subrange(0, PALETTE_COLORS as int))
        } else {
            Some(p)
        },
        None => None,
    }
}

/// The stock icon of a skin on a given outline: the face, recoloured from its
/// own palette and laid over the outline. `None` where the face has no palette.
pub open spec fn stock_image(v: ImageView, outline: ImageView) -> Option<ImageView> {
    match icon_palette(v) {
        Some(palette) => Some(
            ImageView {
                width: outline.width,
                height: outline.height,
                pixels: overlaid(
                    outline.pixels,
                    outline.width as u32,
                    outline.height as u32,
                    quantized(icon_face(v), palette).pixels,
                    FACE_SIZE,
                    FACE_SIZE,
                    FACE_OFFSET,
                    FACE_OFFSET,
                ),
            },
        ),
        None => None,
    }
}

/// Builds the stock icon of a square skin: its face is cut out, resized to
/// 40 by 40 without interpolation, reduced to a palette of at most ten colours
/// and laid over `outline` at (12, 12). Fails only where the face yields no
/// palette.
pub fn gen_stock_image(img: &Image, outline: &Image) -> (r: Result<Image, AssetError>)
    requires
        img@.wf(),
        outline@.wf(),
        img@.width == img@.height,
        img@.width >= 64,
    ensures
        r matches Ok(icon) ==> stock_image(img@, outline@) == Some(icon@) && icon@.wf()
            && icon@.same_size(outline@),
        r matches Ok(icon) ==> forall|px: int, py: int|
            outline@.in_bounds(px, py) && !(FACE_OFFSET <= px < FACE_OFFSET + FACE_SIZE && FACE_OFFSET <= py
                < FACE_OFFSET + FACE_SIZE) ==> #[trigger] icon@.pixel(px, py) == outline@.pixel(px, py),
        r matches Err(e) ==> stock_image(img@, outline@) is None && e == AssetError::PaletteExtraction,
{
    let width = img.width();
    let pixel_scale = width / 64;
    proof {
        img.lemma_view_bounds();
        outline.lemma_view_bounds();
    }
    let face = img.crop(
        Rect { x: 8 * pixel_scale, y: 8 * pixel_scale, width: 8 * pixel_scale, height: 8 * pixel_scale },
    );
    proof {
        let s = pixel_scale as int;
        let w = width as int;
        assert(8 * s * 40 * 4 <= isize::MAX) by (nonlinear_arith)
            requires
                w * w * 4 <= usize::MAX,
                usize::MAX <= 2 * isize::MAX + 1,
                64 * s <= w,
                s >= 1,
        ;
    }
    let resized = resize_nearest(&face, FACE_SIZE, FACE_SIZE);
    let mut face = Image::from_raw(FACE_SIZE, FACE_SIZE, resized).unwrap();
    assert(face@ == icon_face(img@));
    let mut palette = match get_palette(face.as_raw(), PALETTE_QUALITY, PALETTE_COLORS) {
        Some(p) => p,
        None => {
            return Err(AssetError::PaletteExtraction);
        },
    };
    if palette.len() == 0 {
        return Err(AssetError::PaletteExtraction);
    }
    if palette.len() > PALETTE_COLORS as usize {
        palette.truncate(PALETTE_COLORS as usize);
    }
    quantize(&mut face, &palette);
    let composed = overlay(outline, &face, FACE_OFFSET, FACE_OFFSET);
    let icon = Image::from_raw(outline.width(), outline.height(), composed).unwrap();
    assert(icon@ == with_bytes(outline@, composed@));
    Ok(icon)
}

} // verus!
