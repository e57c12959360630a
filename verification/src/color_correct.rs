//! Colour grading: a fixed brightening curve applied to the colour channels.

use crate::power_law::{lemma_on_curve_unique, 
    lemma_curve_from_0, lemma_curve_from_16, lemma_curve_from_32, lemma_curve_from_48, lemma_curve_from_64, lemma_curve_from_80, lemma_curve_from_96, lemma_curve_from_112, lemma_curve_from_128, lemma_curve_from_144, lemma_curve_from_160, lemma_curve_from_176, lemma_curve_from_192, lemma_curve_from_208, lemma_curve_from_224, lemma_curve_from_240, on_curve,
};
use crate::raster::{lemma_mapped, lemma_with_pixel, Image, ImageView, Rgba};
use vstd::prelude::*;

verus! {

/// The largest value the curve produces.
pub const GRADE_MAX: u8 = 184;

/// The grading curve, tabulated: entry `v` is `184 * (v / 255)^(1 / 1.385)`
/// rounded down, as [`lemma_curve_is_tabulated`] shows.
pub const GRADE_CURVE: [u8; 256] = [
    0, 3, 5, 7, 9, 10, 12, 13, 15, 16, 17, 19, 20, 21, 22, 23,
    24, 26, 27, 28, 29, 30, 31, 32, 33, 34, 35, 36, 37, 38, 39, 40,
    41, 42, 42, 43, 44, 45, 46, 47, 48, 49, 50, 50, 51, 52, 53, 54,
    55, 55, 56, 57, 58, 59, 59, 60, 61, 62, 63, 63, 64, 65, 66, 67,
    67, 68, 69, 70, 70, 71, 72, 73, 73, 74, 75, 76, 76, 77, 78, 78,
    79, 80, 81, 81, 82, 83, 83, 84, 85, 86, 86, 87, 88, 88, 89, 90,
    90, 91, 92, 92, 93, 94, 94, 95, 96, 96, 97, 98, 98, 99, 100, 100,
    101, 102, 102, 103, 104, 104, 105, 106, 106, 107, 108, 108, 109, 109, 110, 111,
    111, 112, 113, 113, 114, 115, 115, 116, 116, 117, 118, 118, 119, 119, 120, 121,
    121, 122, 123, 123, 124, 124, 125, 126, 126, 127, 127, 128, 129, 129, 130, 130,
    131, 132, 132, 133, 133, 134, 134, 135, 136, 136, 137, 137, 138, 139, 139, 140,
    140, 141, 141, 142, 143, 143, 144, 144, 145, 145, 146, 147, 147, 148, 148, 149,
    149, 150, 151, 151, 152, 152, 153, 153, 154, 154, 155, 156, 156, 157, 157, 158,
    158, 159, 159, 160, 161, 161, 162, 162, 163, 163, 164, 164, 165, 165, 166, 167,
    167, 168, 168, 169, 169, 170, 170, 171, 171, 172, 172, 173, 173, 174, 175, 175,
    176, 176, 177, 177, 178, 178, 179, 179, 180, 180, 181, 181, 182, 182, 183, 184,
];

/// The graded value of a channel value: `184 * (v / 255)^(1 / 1.385)`,
/// rounded down.
pub open spec fn graded_channel(v: u8) -> u8 {
    choose|k: u8| on_curve(v as int, k as int)
}

/// Grades one channel value.
pub fn grade_channel(v: u8) -> (r: u8)
    ensures
        r == graded_channel(v),
        r <= GRADE_MAX,
{
    proof {
        lemma_curve_is_tabulated(v);
    }
    GRADE_CURVE[v as usize]
}

/// The table holds the curve: every entry is the power law, rounded down.
pub proof fn lemma_curve_is_tabulated(v: u8)
    ensures
        on_curve(v as int, graded_channel(v) as int),
        graded_channel(v) == GRADE_CURVE[v as int],
{
    let k = GRADE_CURVE[v as int];
    assert(on_curve(v as int, k as int)) by {
        lemma_table_on_curve(v);
    }
    lemma_on_curve_unique(v as int, graded_channel(v) as int, k as int);
}

proof fn lemma_table_on_curve(v: u8)
    ensures
        on_curve(v as int, GRADE_CURVE[v as int] as int),
{
    if v < 16 {
        lemma_curve_from_0();
    } else if v < 32 {
        lemma_curve_from_16();
    } else if v < 48 {
        lemma_curve_from_32();
    } else if v < 64 {
        lemma_curve_from_48();
    } else if v < 80 {
        lemma_curve_from_64();
    } else if v < 96 {
        lemma_curve_from_80();
    } else if v < 112 {
        lemma_curve_from_96();
    } else if v < 128 {
        lemma_curve_from_112();
    } else if v < 144 {
        lemma_curve_from_128();
    } else if v < 160 {
        lemma_curve_from_144();
    } else if v < 176 {
        lemma_curve_from_160();
    } else if v < 192 {
        lemma_curve_from_176();
    } else if v < 208 {
        lemma_curve_from_192();
    } else if v < 224 {
        lemma_curve_from_208();
    } else if v < 240 {
        lemma_curve_from_224();
    } else {
        lemma_curve_from_240();
    }
}

/// A pixel with its three colour channels graded and its alpha kept.
pub open spec fn graded_pixel(p: Rgba) -> Rgba {
    Rgba { r: graded_channel(p.r), g: graded_channel(p.g), b: graded_channel(p.b), a: p.a }
}

/// The image with every pixel graded.
pub open spec fn graded(v: ImageView) -> ImageView {
    v.mapped(|p: Rgba| graded_pixel(p))
}

/// The curve never leaves `[0, 184]`.
pub proof fn lemma_graded_bounded(v: u8)
    ensures
        graded_channel(v) <= GRADE_MAX,
{
    lemma_curve_is_tabulated(v);
}

/// The curve sends black to black and the brightest value to the top of its range.
pub proof fn lemma_graded_ends()
    ensures
        graded_channel(0) == 0,
        graded_channel(255) == GRADE_MAX,
{
    lemma_curve_is_tabulated(0);
    lemma_curve_is_tabulated(255);
}

/// The curve never decreases.
pub proof fn lemma_graded_monotonic(a: u8, b: u8)
    requires
        a <= b,
    ensures
        graded_channel(a) <= graded_channel(b),
    decreases b - a,
{
    if a < b {
        lemma_graded_monotonic(a, (b - 1) as u8);
        lemma_graded_step((b - 1) as u8);
    }
}

proof fn lemma_graded_step(v: u8)
    requires
        v < 255,
    ensures
        graded_channel(v) <= graded_channel((v + 1) as u8),
{
    lemma_curve_is_tabulated(v);
    lemma_curve_is_tabulated((v + 1) as u8);
}

/// A graded pixel has colour channels in `[0, 184]` and its old alpha; a black
/// pixel stays black.
pub proof fn lemma_graded_pixel(p: Rgba)
    ensures
        graded_pixel(p).r <= GRADE_MAX,
        graded_pixel(p).g <= GRADE_MAX,
        graded_pixel(p).b <= GRADE_MAX,
        graded_pixel(p).a == p.a,
        p.r == 0 && p.g == 0 && p.b == 0 ==> graded_pixel(p) == (Rgba { r: 0, g: 0, b: 0, a: p.a }),
{
    lemma_curve_is_tabulated(p.r);
    lemma_curve_is_tabulated(p.g);
    lemma_curve_is_tabulated(p.b);
}

/// Grades every pixel of the image in place: each colour channel goes through
/// the curve, alpha stays as it is.
pub fn color_correct(skin_data: &mut Image)
    requires
        old(skin_data)@.wf(),
    ensures
        final(skin_data)@ == graded(old(skin_data)@),
        final(skin_data)@.wf(),
        final(skin_data)@.same_size(old(skin_data)@),
        forall|x: int, y: int|
            old(skin_data)@.in_bounds(x, y) ==> #[trigger] final(skin_data)@.pixel(x, y) == graded_pixel(
                old(skin_data)@.pixel(x, y),
            ),
        forall|x: int, y: int|
            old(skin_data)@.in_bounds(x, y) ==> ({
                let p = #[trigger] final(skin_data)@.pixel(x, y);
                p.r <= GRADE_MAX && p.g <= GRADE_MAX && p.b <= GRADE_MAX && p.a == old(skin_data)@.pixel(
                    x,
                    y,
                ).a
            }),
{
    let ghost before = skin_data@;
    let width = skin_data.width();
    let height = skin_data.height();
    let mut y: u32 = 0;
    while y < height
        invariant
            before.wf(),
            skin_data@.wf(),
            skin_data@.same_size(before),
            width == before.width,
            height == before.height,
            y <= height,
            forall|px: int, py: int|
                before.in_bounds(px, py) ==> #[trigger] skin_data@.pixel(px, py) == (if py < y {
                    graded_pixel(before.pixel(px, py))
                } else {
                    before.pixel(px, py)
                }),
        decreases height - y,
    {
        let mut x: u32 = 0;
        while x < width
            invariant
                before.wf(),
                skin_data@.wf(),
                skin_data@.same_size(before),
                width == before.width,
                height == before.height,
                y < height,
                x <= width,
                forall|px: int, py: int|
                    before.in_bounds(px, py) ==> #[trigger] skin_data@.pixel(px, py) == (if py < y || (py
                        == y && px < x) {
                        graded_pixel(before.pixel(px, py))
                    } else {
                        before.pixel(px, py)
                    }),
            decreases width - x,
        {
            let p = skin_data.get_pixel(x, y);
            let q = Rgba {
                r: grade_channel(p.r),
                g: grade_channel(p.g),
                b: grade_channel(p.b),
                a: p.a,
            };
            let ghost mid = skin_data@;
            skin_data.put_pixel(x, y, q);
            proof {
                lemma_with_pixel(mid, x as int, y as int, q);
            }
            x += 1;
        }
        y += 1;
    }
    proof {
        assert forall|px: int, py: int| before.in_bounds(px, py) implies {
            let p = #[trigger] skin_data@.pixel(px, py);
            p.r <= GRADE_MAX && p.g <= GRADE_MAX && p.b <= GRADE_MAX && p.a == before.pixel(px, py).a
        } by {
            lemma_graded_pixel(before.pixel(px, py));
        }
        lemma_mapped(before, |p: Rgba| graded_pixel(p));
    }
}

} // verus!
