//! Conversion of a legacy 2:1 skin into the square modern layout.

use crate::raster::{
    channel, lemma_from_fn, lemma_pixel_of_byte, transparent, Image, ImageView, Rect, Rgba,
};
use vstd::prelude::*;

verus! {

/// A legacy skin is `64s` wide and `32s` high for some scale `s >= 1`.
pub open spec fn is_legacy(v: ImageView) -> bool {
    v.width > 0 && v.width % 64 == 0 && v.width == 2 * v.height
}

/// A modern skin is a square of `64s` by `64s` for some scale `s >= 1`.
pub open spec fn is_modern(v: ImageView) -> bool {
    v.width > 0 && v.width % 64 == 0 && v.width == v.height
}

/// Scale of a skin: its width in units of 64 pixels.
pub open spec fn scale_of(v: ImageView) -> int {
    (v.width / 64) as int
}

/// Source column read by destination column `col` of a row `width` wide that is
/// rotated right by `shift`: the rightmost `shift` source columns come first.
pub open spec fn rotated_column(width: int, shift: int, col: int) -> int {
    if col < shift {
        width - shift + col
    } else {
        col - shift
    }
}

/// One of the six patches that the lower half is made of, in pixels: the
/// rectangle `width` by `height` at `(from_x, from_y)` is copied to
/// `(to_x, to_y)`, rotated right by `shift` and then mirrored left to right.
pub struct Patch {
    pub from_x: int,
    pub from_y: int,
    pub width: int,
    pub height: int,
    pub shift: int,
    pub to_x: int,
    pub to_y: int,
}

impl Patch {
    /// Whether `(x, y)` lies in the patch's destination.
    pub open spec fn covers(self, x: int, y: int) -> bool {
        self.to_x <= x < self.to_x + self.width && self.to_y <= y < self.to_y + self.height
    }

    /// Where in the skin the pixel shown at `(x, y)` of the destination
    /// comes from.
    pub open spec fn source(self, x: int, y: int) -> (int, int) {
        let before_mirror = self.width - 1 - (x - self.to_x);
        (self.from_x + rotated_column(self.width, self.shift, before_mirror), self.from_y + (y - self.to_y))
    }
}

/// The six patches at scale `s`, in the order in which they are made: the
/// caps of the leg and of the arm, then the sides of the leg and of the arm.
pub open spec fn patch(n: int, s: int) -> Patch {
    if n == 0 {
        Patch {
            from_x: 4 * s,
            from_y: 16 * s,
            width: 4 * s,
            height: 4 * s,
            shift: 0,
            to_x: 20 * s,
            to_y: 48 * s,
        }
    } else if n == 1 {
        Patch {
            from_x: 8 * s,
            from_y: 16 * s,
            width: 4 * s,
            height: 4 * s,
            shift: 0,
            to_x: 24 * s,
            to_y: 48 * s,
        }
    } else if n == 2 {
        Patch {
            from_x: 44 * s,
            from_y: 16 * s,
            width: 4 * s,
            height: 4 * s,
            shift: 0,
            to_x: 36 * s,
            to_y: 48 * s,
        }
    } else if n == 3 {
        Patch {
            from_x: 48 * s,
            from_y: 16 * s,
            width: 4 * s,
            height: 4 * s,
            shift: 0,
            to_x: 40 * s,
            to_y: 48 * s,
        }
    } else if n == 4 {
        Patch {
            from_x: 0,
            from_y: 20 * s,
            width: 16 * s,
            height: 12 * s,
            shift: 4 * s,
            to_x: 16 * s,
            to_y: 52 * s,
        }
    } else {
        Patch {
            from_x: 40 * s,
            from_y: 20 * s,
            width: 16 * s,
            height: 12 * s,
            shift: 4 * s,
            to_x: 32 * s,
            to_y: 52 * s,
        }
    }
}

/// The pixel at `(x, y)` of the canvas after the first `n` patches: the skin
/// on top of transparent black, then each patch over what was there.
pub open spec fn layers(src: ImageView, n: nat, x: int, y: int) -> Rgba
    decreases n,
{
    let s = scale_of(src);
    if n == 0 {
        if y < 32 * s {
            src.pixel(x, y)
        } else {
            transparent()
        }
    } else if patch(n - 1, s).covers(x, y) {
        let at = patch(n - 1, s).source(x, y);
        src.pixel(at.0, at.1)
    } else {
        layers(src, (n - 1) as nat, x, y)
    }
}

/// The pixel at `(x, y)` of the modern layout made from the legacy skin `src`.
pub open spec fn modern_pixel(src: ImageView, x: int, y: int) -> Rgba {
    layers(src, 6, x, y)
}

/// The modern layout made from the legacy skin `src`: a square as wide as the
/// skin.
pub open spec fn modern_layout(src: ImageView) -> ImageView {
    ImageView::from_fn(src.width, src.width, |x: int, y: int| modern_pixel(src, x, y))
}

/// Copies the rectangle `size` at `from_pos` to `to_pos`, then mirrors the copy
/// left to right.
pub fn copy_flipped(image: &mut Image, from_pos: (u32, u32), size: (u32, u32), to_pos: (u32, u32))
    requires
        old(image)@.wf(),
        old(image)@.holds(Rect { x: from_pos.0, y: from_pos.1, width: size.0, height: size.1 }),
        old(image)@.holds(Rect { x: to_pos.0, y: to_pos.1, width: size.0, height: size.1 }),
    ensures
        final(image)@.wf(),
        final(image)@.same_size(old(image)@),
        forall|x: int, y: int|
            old(image)@.in_bounds(x, y) ==> #[trigger] final(image)@.pixel(x, y) == (if (Rect {
                x: to_pos.0,
                y: to_pos.1,
                width: size.0,
                height: size.1,
            }).contains(x, y) {
                old(image)@.pixel(from_pos.0 + (size.0 - 1 - (x - to_pos.0)), from_pos.1 + (y - to_pos.1))
            } else {
                old(image)@.pixel(x, y)
            }),
{
    let (x, y) = from_pos;
    let (width, height) = size;
    let (to_x, to_y) = to_pos;
    let ghost before = image@;
    image.copy_within(Rect { x, y, width, height }, to_x, to_y);
    let ghost mid = image@;
    image.flip_horizontal_in_place(Rect { x: to_x, y: to_y, width, height });
    proof {
        assert forall|px: int, py: int| before.in_bounds(px, py) implies #[trigger] image@.pixel(px, py)
            == (if (Rect { x: to_x, y: to_y, width, height }).contains(px, py) {
            before.pixel(x + (width - 1 - (px - to_x)), y + (py - to_y))
        } else {
            before.pixel(px, py)
        }) by {
            if (Rect { x: to_x, y: to_y, width, height }).contains(px, py) {
                let mx = to_x + (width - 1 - (px - to_x));
                assert(mid.in_bounds(mx, py));
                assert(image@.pixel(px, py) == mid.pixel(mx, py));
            }
        }
    }
}

/// Copies the rectangle `size` at `from_pos` to `to_pos`, rotates the copy to
/// the right by `shift` columns (columns pushed out on the right come back in on
/// the left), then mirrors it left to right. The source is read in full before
/// anything is written, so the two rectangles may overlap.
pub fn copy_rotated_right_flipped(
    image: &mut Image,
    from_pos: (u32, u32),
    size: (u32, u32),
    to_pos: (u32, u32),
    shift: u32,
)
    requires
        old(image)@.wf(),
        size.0 > 0,
        old(image)@.holds(Rect { x: from_pos.0, y: from_pos.1, width: size.0, height: size.1 }),
        old(image)@.holds(Rect { x: to_pos.0, y: to_pos.1, width: size.0, height: size.1 }),
    ensures
        final(image)@.wf(),
        final(image)@.same_size(old(image)@),
        forall|x: int, y: int|
            old(image)@.in_bounds(x, y) ==> #[trigger] final(image)@.pixel(x, y) == (if (Rect {
                x: to_pos.0,
                y: to_pos.1,
                width: size.0,
                height: size.1,
            }).contains(x, y) {
                old(image)@.pixel(
                    from_pos.0 + rotated_column(
                        size.0 as int,
                        shift as int % size.0 as int,
                        size.0 - 1 - (x - to_pos.0),
                    ),
                    from_pos.1 + (y - to_pos.1),
                )
            } else {
                old(image)@.pixel(x, y)
            }),
{
    let (x, y) = from_pos;
    let (width, height) = size;
    let (to_x, to_y) = to_pos;
    let shift = shift % width;
    let ghost before = image@;
    proof {
        image.lemma_view_bounds();
    }
    let ghost dest = Rect { x: to_x, y: to_y, width, height };
    let left = image.crop(Rect { x, y, width: width - shift, height });
    let right = image.crop(Rect { x: x + (width - shift), y, width: shift, height });
    image.copy_from(&left, to_x + shift, to_y);
    let ghost first = image@;
    image.copy_from(&right, to_x, to_y);
    let ghost second = image@;
    image.flip_horizontal_in_place(Rect { x: to_x, y: to_y, width, height });
    proof {
        assert forall|px: int, py: int| before.in_bounds(px, py) implies #[trigger] image@.pixel(px, py)
            == (if dest.contains(px, py) {
            before.pixel(
                x + rotated_column(width as int, shift as int, width - 1 - (px - to_x)),
                y + (py - to_y),
            )
        } else {
            before.pixel(px, py)
        }) by {
            if dest.contains(px, py) {
                let col = width - 1 - (px - to_x);
                let mx = to_x + col;
                assert(second.in_bounds(mx, py));
                assert(image@.pixel(px, py) == second.pixel(mx, py));
                if col < shift {
                    assert(right@.in_bounds(col, py - to_y));
                    assert(second.pixel(mx, py) == right@.pixel(col, py - to_y));
                } else {
                    assert(left@.in_bounds(col - shift, py - to_y));
                    assert(second.pixel(mx, py) == first.pixel(mx, py));
                    assert(first.pixel(mx, py) == left@.pixel(col - shift, py - to_y));
                }
            } else {
                assert(second.pixel(px, py) == first.pixel(px, py));
            }
        }
    }
}

/// Whether a raster has the legacy layout: twice as wide as high, the width a
/// positive multiple of 64.
pub fn has_legacy_layout(skin: &Image) -> (b: bool)
    ensures
        b == is_legacy(skin@),
{
    let width = skin.width();
    let height = skin.height();
    width > 0 && width % 64 == 0 && height == width / 2 && width % 2 == 0
}

/// Converts a legacy skin into the modern layout: a square canvas of the skin's
/// width whose upper half is the skin, unchanged, and whose lower half holds the
/// derived limb patches.
pub fn convert_to_modern_skin(skin_data: &Image) -> (new_skin: Image)
    requires
        skin_data@.wf(),
        is_legacy(skin_data@),
        skin_data@.width * skin_data@.width * 4 <= Image::max_bytes(),
    ensures
        new_skin@ == modern_layout(skin_data@),
        new_skin@.wf(),
        is_modern(new_skin@),
        new_skin@.width == skin_data@.width,
        new_skin@.height == skin_data@.width,
        forall|x: int, y: int|
            new_skin@.in_bounds(x, y) ==> #[trigger] new_skin@.pixel(x, y) == modern_pixel(
                skin_data@,
                x,
                y,
            ),
        new_skin@.pixels.subrange(0, skin_data@.pixels.len() as int) == skin_data@.pixels,
{
    let scale = skin_data.width() / 64;
    let ghost src = skin_data@;
    proof {
        skin_data.lemma_view_bounds();
        assert(src.width == 64 * scale);
        assert(src.height == 32 * scale);
        assert(scale_of(src) == scale);
    }
    let blank = Image::new(64 * scale, 64 * scale);
    let mut new_skin = blank.unwrap();

    new_skin.copy_from(skin_data, 0, 0);
    let ghost s0 = new_skin@;
    proof {
        assert forall|x: int, y: int| s0.in_bounds(x, y) implies #[trigger] s0.pixel(x, y) == layers(
            src,
            0,
            x,
            y,
        ) by {}
    }

    let arm_size: (u32, u32) = (4 * scale, 4 * scale);

    // top of the leg
    copy_flipped(&mut new_skin, (4 * scale, 16 * scale), arm_size, (20 * scale, 48 * scale));
    let ghost s1 = new_skin@;
    proof {
        lemma_patch_step(src, s0, s1, 0, (4 * scale, 16 * scale), (4 * scale, 4 * scale), (20 * scale, 48 * scale), 0);
    }

    // bottom of the leg
    copy_flipped(&mut new_skin, (8 * scale, 16 * scale), arm_size, (24 * scale, 48 * scale));
    let ghost s2 = new_skin@;
    proof {
        lemma_patch_step(src, s1, s2, 1, (8 * scale, 16 * scale), (4 * scale, 4 * scale), (24 * scale, 48 * scale), 0);
    }

    // top of the arm
    copy_flipped(&mut new_skin, (44 * scale, 16 * scale), arm_size, (36 * scale, 48 * scale));
    let ghost s3 = new_skin@;
    proof {
        lemma_patch_step(src, s2, s3, 2, (44 * scale, 16 * scale), (4 * scale, 4 * scale), (36 * scale, 48 * scale), 0);
    }

    // bottom of the arm
    copy_flipped(&mut new_skin, (48 * scale, 16 * scale), arm_size, (40 * scale, 48 * scale));
    let ghost s4 = new_skin@;
    proof {
        lemma_patch_step(src, s3, s4, 3, (48 * scale, 16 * scale), (4 * scale, 4 * scale), (40 * scale, 48 * scale), 0);
        assert((4 * scale) as int % (16 * scale) as int == 4 * scale) by {
            vstd::arithmetic::div_mod::lemma_small_mod((4 * scale) as nat, (16 * scale) as nat);
        }
    }

    // sides of the leg
    copy_rotated_right_flipped(
        &mut new_skin,
        (0, 20 * scale),
        (16 * scale, 12 * scale),
        (16 * scale, 52 * scale),
        4 * scale,
    );
    let ghost s5 = new_skin@;
    proof {
        lemma_patch_step(src, s4, s5, 4, (0, 20 * scale), (16 * scale, 12 * scale), (16 * scale, 52 * scale), 4 * scale);
    }

    // sides of the arm
    copy_rotated_right_flipped(
        &mut new_skin,
        (40 * scale, 20 * scale),
        (16 * scale, 12 * scale),
        (32 * scale, 52 * scale),
        4 * scale,
    );

    proof {
        let out = new_skin@;
        lemma_patch_step(src, s5, out, 5, (40 * scale, 20 * scale), (16 * scale, 12 * scale), (32 * scale, 52 * scale), 4 * scale);
        lemma_top_bytes(src, out);
        lemma_from_fn(src.width, src.width, |x: int, y: int| modern_pixel(src, x, y));
    }
    new_skin
}

/// The patches are made below the skin and read from inside it.
proof fn lemma_patch_reads_skin(src: ImageView, n: int, x: int, y: int)
    requires
        is_legacy(src),
        0 <= n < 6,
        patch(n, scale_of(src)).covers(x, y),
    ensures
        y >= 32 * scale_of(src),
        src.in_bounds(patch(n, scale_of(src)).source(x, y).0, patch(n, scale_of(src)).source(x, y).1),
{
    let s = scale_of(src);
    assert(src.width == 64 * s && src.height == 32 * s && s >= 1);
}

/// No patch changes the skin on top.
pub proof fn lemma_layers_keep_skin(src: ImageView, n: nat, x: int, y: int)
    requires
        is_legacy(src),
        n <= 6,
        y < 32 * scale_of(src),
    ensures
        layers(src, n, x, y) == src.pixel(x, y),
    decreases n,
{
    if n > 0 {
        if patch(n - 1, scale_of(src)).covers(x, y) {
            lemma_patch_reads_skin(src, n - 1, x, y);
        }
        lemma_layers_keep_skin(src, (n - 1) as nat, x, y);
    }
}

/// One patch operation takes the canvas with `n` patches to the canvas with
/// `n + 1`: it reads only from the skin on top and writes only its own
/// rectangle. The operation is given by its rectangles in pixels.
proof fn lemma_patch_step(
    src: ImageView,
    prev: ImageView,
    next: ImageView,
    n: nat,
    from: (int, int),
    size: (int, int),
    to: (int, int),
    shift: int,
)
    requires
        is_legacy(src),
        n < 6,
        prev.same_size(next),
        prev.width == src.width,
        prev.height == src.width,
        from == (patch(n as int, scale_of(src)).from_x, patch(n as int, scale_of(src)).from_y),
        size == (patch(n as int, scale_of(src)).width, patch(n as int, scale_of(src)).height),
        to == (patch(n as int, scale_of(src)).to_x, patch(n as int, scale_of(src)).to_y),
        shift == patch(n as int, scale_of(src)).shift,
        forall|x: int, y: int| prev.in_bounds(x, y) ==> #[trigger] prev.pixel(x, y) == layers(src, n, x, y),
        forall|x: int, y: int|
            prev.in_bounds(x, y) ==> #[trigger] next.pixel(x, y) == (if to.0 <= x < to.0 + size.0 && to.1
                <= y < to.1 + size.1 {
                prev.pixel(from.0 + rotated_column(size.0, shift, size.0 - 1 - (x - to.0)), from.1 + (y - to.1))
            } else {
                prev.pixel(x, y)
            }),
    ensures
        forall|x: int, y: int| next.in_bounds(x, y) ==> #[trigger] next.pixel(x, y) == layers(src, n + 1, x, y),
{
    let p = patch(n as int, scale_of(src));
    assert forall|x: int, y: int| next.in_bounds(x, y) implies #[trigger] next.pixel(x, y) == layers(
        src,
        n + 1,
        x,
        y,
    ) by {
        assert(prev.in_bounds(x, y));
        assert(prev.pixel(x, y) == layers(src, n, x, y));
        if p.covers(x, y) {
            lemma_patch_reads_skin(src, n as int, x, y);
            let at = p.source(x, y);
            assert(prev.in_bounds(at.0, at.1));
            assert(prev.pixel(at.0, at.1) == layers(src, n, at.0, at.1));
            lemma_layers_keep_skin(src, n, at.0, at.1);
        }
    }
}

/// A canvas as wide as the legacy skin that shows it on top starts with the
/// skin's bytes.
proof fn lemma_top_bytes(src: ImageView, out: ImageView)
    requires
        is_legacy(src),
        src.wf(),
        out.wf(),
        out.width == src.width,
        out.height == src.width,
        forall|x: int, y: int| out.in_bounds(x, y) ==> #[trigger] out.pixel(x, y) == modern_pixel(src, x, y),
    ensures
        out.pixels.subrange(0, src.pixels.len() as int) == src.pixels,
{
    let s = scale_of(src);
    assert(src.width == 64 * s && src.height == 32 * s && s >= 1);
    assert(src.pixels.len() <= out.pixels.len()) by (nonlinear_arith)
        requires
            src.pixels.len() == src.width * src.height * 4,
            out.pixels.len() == out.width * out.height * 4,
            out.width == src.width,
            out.height == src.width,
            src.width == 2 * src.height,
    ;
    assert forall|i: int| 0 <= i < src.pixels.len() implies out.pixels[i] == src.pixels[i] by {
        let (x, y) = lemma_pixel_of_byte(src, i);
        let (x2, y2) = lemma_pixel_of_byte(out, i);
        assert(x2 == x && y2 == y);
        assert(out.pixel(x, y) == modern_pixel(src, x, y));
        lemma_layers_keep_skin(src, 6, x, y);
        assert(out.pixels[i] == channel(out.pixel(x, y), i % 4));
        assert(src.pixels[i] == channel(src.pixel(x, y), i % 4));
    }
    assert(out.pixels.subrange(0, src.pixels.len() as int) =~= src.pixels);
}

} // verus!
