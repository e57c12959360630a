use minecraft_skins::error::AssetError;
use minecraft_skins::raster::{Image, Rgba};
use minecraft_skins::stock_generation::{closest_color, color_distance, gen_stock_image, quantize, Color};

fn filled(width: u32, height: u32, p: Rgba) -> Image {
    let mut img = Image::new(width, height).unwrap();
    for y in 0..height {
        for x in 0..width {
            img.put_pixel(x, y, p);
        }
    }
    img
}

#[test]
fn distance_is_the_squared_euclidean_distance() {
    let a = Color { r: 10, g: 20, b: 30 };
    let b = Color { r: 13, g: 16, b: 42 };
    assert_eq!(color_distance(a, b), 9 + 16 + 144);
    assert_eq!(color_distance(b, a), 169);
    assert_eq!(color_distance(a, a), 0);
    assert_eq!(
        color_distance(Color { r: 0, g: 0, b: 0 }, Color { r: 255, g: 255, b: 255 }),
        3 * 255 * 255
    );
}

#[test]
fn squared_distance_orders_as_the_distance_does() {
    let c = Color { r: 100, g: 100, b: 100 };
    let near = Color { r: 101, g: 100, b: 100 };
    let far = Color { r: 100, g: 102, b: 100 };
    let d = |x: Color, y: Color| {
        ((y.r as f32 - x.r as f32).powi(2) + (y.g as f32 - x.g as f32).powi(2)
            + (y.b as f32 - x.b as f32).powi(2))
        .sqrt()
    };
    assert!(d(near, c) < d(far, c));
    assert!(color_distance(near, c) < color_distance(far, c));
}

#[test]
fn closest_color_takes_the_first_of_equals() {
    let palette = vec![
        Color { r: 0, g: 0, b: 0 },
        Color { r: 10, g: 0, b: 0 },
        Color { r: 0, g: 10, b: 0 },
        Color { r: 200, g: 200, b: 200 },
    ];
    // (5, 5, 0) is as far from entry 1 as from entry 2, and also from entry 0
    assert_eq!(closest_color(&palette, Color { r: 5, g: 5, b: 0 }), palette[0]);
    assert_eq!(closest_color(&palette, Color { r: 9, g: 1, b: 0 }), palette[1]);
    assert_eq!(closest_color(&palette, Color { r: 1, g: 9, b: 0 }), palette[2]);
    assert_eq!(closest_color(&palette, Color { r: 255, g: 255, b: 255 }), palette[3]);
    assert_eq!(closest_color(&palette, Color { r: 6, g: 6, b: 0 }), palette[1]);
}

#[test]
fn quantize_recolours_from_the_palette_and_keeps_alpha() {
    let palette = vec![
        Color { r: 250, g: 10, b: 10 },
        Color { r: 10, g: 250, b: 10 },
        Color { r: 10, g: 10, b: 250 },
    ];
    let mut img = Image::new(8, 8).unwrap();
    for y in 0..8u32 {
        for x in 0..8u32 {
            img.put_pixel(
                x,
                y,
                Rgba { r: (x * 36) as u8, g: (y * 36) as u8, b: ((x + y) * 17) as u8, a: (x * 8 + y) as u8 },
            );
        }
    }
    let before = img.clone();
    quantize(&mut img, &palette);
    for y in 0..8u32 {
        for x in 0..8u32 {
            let p = img.get_pixel(x, y);
            let q = before.get_pixel(x, y);
            assert_eq!(p.a, q.a);
            let shown = Color { r: p.r, g: p.g, b: p.b };
            assert!(palette.contains(&shown));
            assert_eq!(shown, closest_color(&palette, Color { r: q.r, g: q.g, b: q.b }));
        }
    }
    assert_eq!(img.get_pixel(7, 0), Rgba { r: 250, g: 10, b: 10, a: 56 });
    assert_eq!(img.get_pixel(0, 7), Rgba { r: 10, g: 250, b: 10, a: 7 });
}

#[test]
fn stock_image_shows_the_face_on_the_outline() {
    // a skin whose face is red and whose rest is blue
    let mut skin = filled(64, 64, Rgba { r: 0, g: 0, b: 255, a: 255 });
    for y in 8..16 {
        for x in 8..16 {
            skin.put_pixel(x, y, Rgba { r: 255, g: 0, b: 0, a: 255 });
        }
    }
    let outline = Image::new(64, 64).unwrap();
    let icon = gen_stock_image(&skin, &outline).unwrap();
    assert_eq!((icon.width(), icon.height()), (64, 64));
    for y in 0..64u32 {
        for x in 0..64u32 {
            let p = icon.get_pixel(x, y);
            if (12..52).contains(&x) && (12..52).contains(&y) {
                // the palette of a face of one colour holds the colour's cell of
                // the colour cube and the empty cell next to it, which is nearer
                assert_eq!(p, Rgba { r: 255, g: 4, b: 4, a: 255 }, "pixel ({}, {})", x, y);
            } else {
                assert_eq!(p, Rgba { r: 0, g: 0, b: 0, a: 0 });
            }
        }
    }
}

#[test]
fn stock_image_resizes_without_blending() {
    // left half of the face green, right half dark grey, at scale 2
    let mut skin = filled(128, 128, Rgba { r: 9, g: 9, b: 9, a: 255 });
    for y in 16..32 {
        for x in 16..24 {
            skin.put_pixel(x, y, Rgba { r: 0, g: 200, b: 0, a: 255 });
        }
        for x in 24..32 {
            skin.put_pixel(x, y, Rgba { r: 40, g: 40, b: 40, a: 255 });
        }
    }
    let outline = filled(64, 64, Rgba { r: 1, g: 2, b: 3, a: 255 });
    let icon = gen_stock_image(&skin, &outline).unwrap();
    let left = icon.get_pixel(12, 12);
    let right = icon.get_pixel(51, 51);
    assert_ne!(left, right);
    for y in 12..52u32 {
        for x in 12..52u32 {
            let p = icon.get_pixel(x, y);
            assert_eq!(p, if x < 32 { left } else { right }, "pixel ({}, {})", x, y);
        }
    }
    assert_eq!(icon.get_pixel(0, 0), Rgba { r: 1, g: 2, b: 3, a: 255 });
    assert_eq!(icon.get_pixel(11, 30), Rgba { r: 1, g: 2, b: 3, a: 255 });
    assert_eq!(icon.get_pixel(52, 30), Rgba { r: 1, g: 2, b: 3, a: 255 });
}

#[test]
fn stock_image_keeps_the_outline_around_the_face() {
    let skin = filled(64, 64, Rgba { r: 90, g: 60, b: 30, a: 255 });
    let mut outline = Image::new(70, 60).unwrap();
    for y in 0..60u32 {
        for x in 0..70u32 {
            outline.put_pixel(x, y, Rgba { r: x as u8, g: y as u8, b: (x * y) as u8, a: (x + y) as u8 });
        }
    }
    let icon = gen_stock_image(&skin, &outline).unwrap();
    assert_eq!((icon.width(), icon.height()), (70, 60));
    let mut changed = 0;
    for y in 0..60u32 {
        for x in 0..70u32 {
            if (12..52).contains(&x) && (12..52).contains(&y) {
                if icon.get_pixel(x, y) != outline.get_pixel(x, y) {
                    changed += 1;
                }
            } else {
                assert_eq!(icon.get_pixel(x, y), outline.get_pixel(x, y), "pixel ({}, {})", x, y);
            }
        }
    }
    // the face is opaque: it covers the whole square
    assert_eq!(changed, 40 * 40);
}

#[test]
fn stock_image_of_a_face_that_reaches_over_the_outline() {
    let skin = filled(64, 64, Rgba { r: 90, g: 60, b: 30, a: 255 });
    let outline = filled(20, 16, Rgba { r: 1, g: 2, b: 3, a: 4 });
    let icon = gen_stock_image(&skin, &outline).unwrap();
    assert_eq!((icon.width(), icon.height()), (20, 16));
    for y in 0..16u32 {
        for x in 0..20u32 {
            if x < 12 || y < 12 {
                assert_eq!(icon.get_pixel(x, y), Rgba { r: 1, g: 2, b: 3, a: 4 });
            } else {
                assert_eq!(icon.get_pixel(x, y).a, 255);
            }
        }
    }
}

#[test]
fn stock_image_of_a_clear_face_is_the_outline() {
    let skin = Image::new(64, 64).unwrap();
    let outline = filled(64, 64, Rgba { r: 1, g: 2, b: 3, a: 255 });
    let icon = gen_stock_image(&skin, &outline).unwrap();
    assert_eq!(icon.as_raw(), outline.as_raw());
}

#[test]
fn stock_image_fails_only_for_want_of_a_palette() {
    let skin = filled(64, 64, Rgba { r: 255, g: 255, b: 255, a: 255 });
    let outline = Image::new(70, 50).unwrap();
    match gen_stock_image(&skin, &outline) {
        Ok(icon) => assert_eq!((icon.width(), icon.height()), (70, 50)),
        Err(e) => assert_eq!(e, AssetError::PaletteExtraction),
    }
}
