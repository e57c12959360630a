use minecraft_skins::modern_skin::{
    convert_to_modern_skin, copy_flipped, copy_rotated_right_flipped, has_legacy_layout,
};
use minecraft_skins::raster::{Image, Rect, Rgba};

const CLEAR: Rgba = Rgba { r: 0, g: 0, b: 0, a: 0 };

fn numbered(width: u32, height: u32) -> Image {
    let mut img = Image::new(width, height).unwrap();
    for y in 0..height {
        for x in 0..width {
            let n = y * width + x;
            img.put_pixel(
                x,
                y,
                Rgba {
                    r: (n % 251) as u8,
                    g: (n / 251 % 251) as u8,
                    b: (x % 256) as u8,
                    a: 255 - (y % 200) as u8,
                },
            );
        }
    }
    img
}

#[test]
fn new_image_is_transparent_black() {
    let img = Image::new(3, 2).unwrap();
    assert_eq!(img.width(), 3);
    assert_eq!(img.height(), 2);
    assert_eq!(img.as_raw(), &vec![0u8; 24]);
    assert_eq!(img.get_pixel(2, 1), CLEAR);
}

#[test]
fn new_image_refuses_a_size_that_cannot_be_held() {
    assert!(Image::new(u32::MAX, u32::MAX).is_none());
    assert!(!Image::can_hold(u32::MAX, u32::MAX));
    assert!(Image::can_hold(64, 64));
}

#[test]
fn from_raw_wants_the_exact_length() {
    assert!(Image::from_raw(2, 2, vec![0u8; 16]).is_some());
    assert!(Image::from_raw(2, 2, vec![0u8; 15]).is_none());
    assert!(Image::from_raw(2, 2, vec![0u8; 17]).is_none());
    let img = Image::from_raw(1, 2, vec![1, 2, 3, 4, 5, 6, 7, 8]).unwrap();
    assert_eq!(img.get_pixel(0, 1), Rgba { r: 5, g: 6, b: 7, a: 8 });
    assert_eq!(img.into_raw(), vec![1, 2, 3, 4, 5, 6, 7, 8]);
}

#[test]
fn put_pixel_changes_one_pixel() {
    let mut img = numbered(4, 3);
    let before = img.clone();
    let p = Rgba { r: 9, g: 8, b: 7, a: 6 };
    img.put_pixel(2, 1, p);
    for y in 0..3 {
        for x in 0..4 {
            if (x, y) == (2, 1) {
                assert_eq!(img.get_pixel(x, y), p);
            } else {
                assert_eq!(img.get_pixel(x, y), before.get_pixel(x, y));
            }
        }
    }
    assert_eq!(&img.as_raw()[24..28], &[9, 8, 7, 6]);
}

#[test]
fn copy_within_reads_the_source_before_it_writes() {
    let mut img = numbered(8, 4);
    let before = img.clone();
    // source and destination overlap by two columns
    assert!(img.copy_within(Rect { x: 0, y: 0, width: 4, height: 4 }, 2, 0));
    for y in 0..4 {
        for x in 0..8 {
            let want = if (2..6).contains(&x) { before.get_pixel(x - 2, y) } else { before.get_pixel(x, y) };
            assert_eq!(img.get_pixel(x, y), want);
        }
    }
}

#[test]
fn copy_within_refuses_what_does_not_fit() {
    let mut img = numbered(8, 4);
    let before = img.clone();
    assert!(!img.copy_within(Rect { x: 6, y: 0, width: 4, height: 4 }, 0, 0));
    assert!(!img.copy_within(Rect { x: 0, y: 0, width: 4, height: 4 }, 5, 0));
    assert!(!img.copy_within(Rect { x: 0, y: 0, width: 4, height: 4 }, 0, 1));
    assert!(!img.copy_within(Rect { x: u32::MAX, y: 0, width: 4, height: 4 }, 0, 0));
    assert_eq!(img.as_raw(), before.as_raw());
}

#[test]
fn flip_mirrors_a_rectangle_and_nothing_else() {
    let mut img = numbered(6, 3);
    let before = img.clone();
    img.flip_horizontal_in_place(Rect { x: 1, y: 1, width: 4, height: 2 });
    for y in 0..3 {
        for x in 0..6 {
            let want = if (1..5).contains(&x) && y >= 1 {
                before.get_pixel(1 + (3 - (x - 1)), y)
            } else {
                before.get_pixel(x, y)
            };
            assert_eq!(img.get_pixel(x, y), want);
        }
    }
}

#[test]
fn copy_from_places_another_image() {
    let mut img = Image::new(5, 5).unwrap();
    let other = numbered(2, 3);
    assert!(img.copy_from(&other, 3, 1));
    for y in 0..5 {
        for x in 0..5 {
            let want = if x >= 3 && (1..4).contains(&y) { other.get_pixel(x - 3, y - 1) } else { CLEAR };
            assert_eq!(img.get_pixel(x, y), want);
        }
    }
    let before = img.clone();
    assert!(!img.copy_from(&other, 4, 1));
    assert!(!img.copy_from(&other, 3, 3));
    assert_eq!(img.as_raw(), before.as_raw());
}

#[test]
fn crop_cuts_a_rectangle_out() {
    let img = numbered(6, 5);
    let cut = img.crop(Rect { x: 2, y: 1, width: 3, height: 2 });
    assert_eq!((cut.width(), cut.height()), (3, 2));
    for y in 0..2 {
        for x in 0..3 {
            assert_eq!(cut.get_pixel(x, y), img.get_pixel(2 + x, 1 + y));
        }
    }
    assert!(img.fits(Rect { x: 2, y: 1, width: 4, height: 4 }));
    assert!(!img.fits(Rect { x: 2, y: 1, width: 5, height: 4 }));
}

#[test]
fn copy_flipped_copies_and_mirrors() {
    let mut img = numbered(8, 8);
    let before = img.clone();
    copy_flipped(&mut img, (0, 0), (3, 2), (4, 5));
    for y in 0..8 {
        for x in 0..8 {
            let want = if (4..7).contains(&x) && (5..7).contains(&y) {
                before.get_pixel(2 - (x - 4), y - 5)
            } else {
                before.get_pixel(x, y)
            };
            assert_eq!(img.get_pixel(x, y), want);
        }
    }
}

#[test]
fn copy_rotated_right_flipped_wraps_the_columns() {
    let mut img = numbered(16, 4);
    let before = img.clone();
    // source columns 2..8, destination columns 9..15, rotated by 2 (8 mod 6)
    copy_rotated_right_flipped(&mut img, (2, 0), (6, 2), (9, 2), 8);
    // before the mirror the destination holds source columns 4 5 0 1 2 3
    let rotated = [4u32, 5, 0, 1, 2, 3];
    for y in 0..4 {
        for x in 0..16 {
            let want = if (9..15).contains(&x) && y >= 2 {
                before.get_pixel(2 + rotated[(5 - (x - 9)) as usize], y - 2)
            } else {
                before.get_pixel(x, y)
            };
            assert_eq!(img.get_pixel(x, y), want);
        }
    }
}

#[test]
fn copy_rotated_right_flipped_reads_before_it_writes() {
    let mut img = numbered(12, 3);
    let before = img.clone();
    // source columns 0..6 and destination columns 2..8 share four columns
    copy_rotated_right_flipped(&mut img, (0, 0), (6, 3), (2, 0), 2);
    let rotated = [4u32, 5, 0, 1, 2, 3];
    for y in 0..3 {
        for x in 0..12 {
            let want = if (2..8).contains(&x) {
                before.get_pixel(rotated[(5 - (x - 2)) as usize], y)
            } else {
                before.get_pixel(x, y)
            };
            assert_eq!(img.get_pixel(x, y), want, "pixel ({}, {})", x, y);
        }
    }
    // onto itself and without a shift it is a mirror
    let mut same = numbered(6, 2);
    let start = same.clone();
    copy_rotated_right_flipped(&mut same, (1, 0), (4, 2), (1, 0), 4);
    for y in 0..2 {
        for x in 0..6 {
            let want = if (1..5).contains(&x) { start.get_pixel(5 - x, y) } else { start.get_pixel(x, y) };
            assert_eq!(same.get_pixel(x, y), want);
        }
    }
}

#[test]
fn legacy_layout_is_twice_as_wide_as_high_in_base_units() {
    assert!(has_legacy_layout(&Image::new(64, 32).unwrap()));
    assert!(has_legacy_layout(&Image::new(128, 64).unwrap()));
    assert!(!has_legacy_layout(&Image::new(64, 64).unwrap()));
    assert!(!has_legacy_layout(&Image::new(100, 50).unwrap()));
    assert!(!has_legacy_layout(&Image::new(0, 0).unwrap()));
    assert!(!has_legacy_layout(&Image::new(32, 16).unwrap()));
}

#[test]
fn convert_keeps_the_legacy_skin_on_top() {
    for s in [1u32, 2, 4] {
        let src = numbered(64 * s, 32 * s);
        let out = convert_to_modern_skin(&src);
        assert_eq!(out.width(), 64 * s);
        assert_eq!(out.height(), 64 * s);
        assert_eq!(&out.as_raw()[..src.as_raw().len()], &src.as_raw()[..]);
    }
}

/// Where pixel (x, y) of the lower half comes from, in base units at scale s.
fn source_of(s: u32, x: u32, y: u32) -> Option<(u32, u32)> {
    // (from_x, from_y, w, h, shift, to_x, to_y)
    let patches: [(u32, u32, u32, u32, u32, u32, u32); 6] = [
        (4, 16, 4, 4, 0, 20, 48),
        (8, 16, 4, 4, 0, 24, 48),
        (44, 16, 4, 4, 0, 36, 48),
        (48, 16, 4, 4, 0, 40, 48),
        (0, 20, 16, 12, 4, 16, 52),
        (40, 20, 16, 12, 4, 32, 52),
    ];
    for (fx, fy, w, h, shift, tx, ty) in patches {
        if x >= tx * s && x < (tx + w) * s && y >= ty * s && y < (ty + h) * s {
            let col = w * s - 1 - (x - tx * s);
            let from_col = (col + w * s - shift * s) % (w * s);
            return Some((fx * s + from_col, fy * s + (y - ty * s)));
        }
    }
    None
}

#[test]
fn convert_derives_the_lower_half_from_the_six_patches() {
    for s in [1u32, 2] {
        let src = numbered(64 * s, 32 * s);
        let out = convert_to_modern_skin(&src);
        for y in 32 * s..64 * s {
            for x in 0..64 * s {
                let want = match source_of(s, x, y) {
                    Some((sx, sy)) => src.get_pixel(sx, sy),
                    None => CLEAR,
                };
                assert_eq!(out.get_pixel(x, y), want, "pixel ({}, {}) at scale {}", x, y, s);
            }
        }
    }
}

#[test]
fn convert_places_known_pixels() {
    let src = numbered(64, 32);
    let out = convert_to_modern_skin(&src);
    // the cap at (4, 16) lands mirrored at (20, 48)
    assert_eq!(out.get_pixel(20, 48), src.get_pixel(7, 16));
    assert_eq!(out.get_pixel(23, 51), src.get_pixel(4, 19));
    // the side at (0, 20): its last four columns come first, then the mirror
    assert_eq!(out.get_pixel(31, 52), src.get_pixel(12, 20));
    assert_eq!(out.get_pixel(28, 52), src.get_pixel(15, 20));
    assert_eq!(out.get_pixel(27, 52), src.get_pixel(0, 20));
    assert_eq!(out.get_pixel(16, 63), src.get_pixel(11, 31));
    // the side at (40, 20)
    assert_eq!(out.get_pixel(47, 52), src.get_pixel(52, 20));
    assert_eq!(out.get_pixel(32, 52), src.get_pixel(51, 20));
    // nothing is derived for the corners
    assert_eq!(out.get_pixel(0, 32), CLEAR);
    assert_eq!(out.get_pixel(63, 63), CLEAR);
}
