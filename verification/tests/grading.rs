use minecraft_skins::color_correct::{color_correct, grade_channel, GRADE_CURVE, GRADE_MAX};
use minecraft_skins::raster::{Image, Rgba};

#[test]
fn curve_is_the_tabulated_power_law() {
    for v in 0..=255u8 {
        let want = ((((v as f64) / 255.0).powf(1.0f64 / 1.385f64) * 255.0) * 184.0 / 255.0) as u8;
        assert_eq!(grade_channel(v), want, "value {}", v);
        assert_eq!(GRADE_CURVE[v as usize], want);
    }
}

#[test]
fn curve_has_known_values() {
    assert_eq!(grade_channel(0), 0);
    assert_eq!(grade_channel(1), 3);
    assert_eq!(grade_channel(64), 67);
    assert_eq!(grade_channel(128), 111);
    assert_eq!(grade_channel(200), 154);
    assert_eq!(grade_channel(254), 183);
}

#[test]
fn brightest_value_maps_to_the_top_of_the_range() {
    let top = grade_channel(255) as i32;
    assert!((top - 184).abs() <= 1);
    assert_eq!(grade_channel(255), GRADE_MAX);
}

#[test]
fn curve_is_bounded_and_never_decreases() {
    let mut last = 0u8;
    for v in 0..=255u8 {
        let g = grade_channel(v);
        assert!(g <= 184);
        assert!(g >= last);
        last = g;
    }
}

#[test]
fn grading_bounds_colour_and_keeps_alpha() {
    let mut img = Image::new(16, 16).unwrap();
    for y in 0..16u32 {
        for x in 0..16u32 {
            let v = (y * 16 + x) as u8;
            img.put_pixel(x, y, Rgba { r: v, g: 255 - v, b: v.wrapping_mul(7), a: v.wrapping_add(13) });
        }
    }
    let before = img.clone();
    color_correct(&mut img);
    assert_eq!((img.width(), img.height()), (16, 16));
    for y in 0..16u32 {
        for x in 0..16u32 {
            let p = img.get_pixel(x, y);
            let q = before.get_pixel(x, y);
            assert!(p.r <= 184 && p.g <= 184 && p.b <= 184);
            assert_eq!(p.a, q.a);
            assert_eq!(p.r, grade_channel(q.r));
            assert_eq!(p.g, grade_channel(q.g));
            assert_eq!(p.b, grade_channel(q.b));
        }
    }
}

#[test]
fn grading_an_all_zero_image_changes_nothing() {
    let mut img = Image::new(8, 4).unwrap();
    color_correct(&mut img);
    assert_eq!(img.as_raw(), &vec![0u8; 8 * 4 * 4]);
}

#[test]
fn grading_twice_stays_in_range() {
    let mut img = Image::from_raw(1, 1, vec![255, 128, 0, 200]).unwrap();
    color_correct(&mut img);
    assert_eq!(img.as_raw(), &vec![184, 111, 0, 200]);
    color_correct(&mut img);
    let p = img.get_pixel(0, 0);
    assert!(p.r <= 184 && p.g <= 184 && p.b <= 184);
    assert_eq!(p.a, 200);
}
