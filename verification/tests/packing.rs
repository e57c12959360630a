use minecraft_skins::color_correct::color_correct;
use minecraft_skins::error::AssetError;
use minecraft_skins::modern_skin::convert_to_modern_skin;
use minecraft_skins::packer::{
    pack, pack_nutexb, pack_serialized, pack_whole, ContainerFormat, NUTEXB_FOOTER,
};
use minecraft_skins::pipeline::{callback_outcome, generate_texture, TEXTURE_NAME};
use minecraft_skins::raster::{Image, Rgba};
use minecraft_skins::skin_files::MAX_FILE_SIZE;

fn filled(width: u32, height: u32, p: Rgba) -> Image {
    let mut img = Image::new(width, height).unwrap();
    for y in 0..height {
        for x in 0..width {
            img.put_pixel(x, y, p);
        }
    }
    img
}

#[test]
fn trailer_lengths() {
    assert_eq!(ContainerFormat::Nutexb.trailer_len(), Some(0xb0));
    assert_eq!(ContainerFormat::Bntx.trailer_len(), None);
    assert_eq!(NUTEXB_FOOTER, 176);
}

#[test]
fn whole_file_is_written_from_the_start() {
    let natural: Vec<u8> = (1..=10).collect();
    let mut out = vec![0xeeu8; 16];
    assert_eq!(pack_whole(&natural, &mut out), Ok(10));
    assert_eq!(out, vec![1, 2, 3, 4, 5, 6, 7, 8, 9, 10, 0xee, 0xee, 0xee, 0xee, 0xee, 0xee]);
    let mut exact = vec![0xeeu8; 10];
    assert_eq!(pack_whole(&natural, &mut exact), Ok(10));
    assert_eq!(exact, natural);
    let mut small = vec![0xeeu8; 9];
    assert_eq!(pack_whole(&natural, &mut small), Err(AssetError::PackingOverflow));
    assert_eq!(small, vec![0xeeu8; 9]);
    let mut untouched = vec![3u8; 4];
    assert_eq!(pack_whole(&[], &mut untouched), Ok(0));
    assert_eq!(untouched, vec![3u8; 4]);
}

#[test]
fn packing_follows_the_format() {
    let natural: Vec<u8> = (0..200).collect();
    let mut with_footer = vec![0xeeu8; 256];
    assert_eq!(pack(ContainerFormat::Nutexb, &natural, &mut with_footer), Ok(256));
    // twenty-four bytes of payload, then the footer where the buffer ends
    assert_eq!(&with_footer[..24], &natural[..24]);
    assert_eq!(&with_footer[256 - 0xb0..], &natural[200 - 0xb0..]);
    let mut same = vec![0xeeu8; 256];
    assert_eq!(pack_serialized(&natural, NUTEXB_FOOTER, &mut same), Ok(256));
    assert_eq!(with_footer, same);
    let mut whole = vec![0xeeu8; 256];
    assert_eq!(pack(ContainerFormat::Bntx, &natural, &mut whole), Ok(200));
    assert_eq!(&whole[..200], &natural[..]);
    assert!(whole[200..].iter().all(|b| *b == 0xee));
    let mut small = vec![0xeeu8; 100];
    assert_eq!(pack(ContainerFormat::Nutexb, &natural, &mut small), Err(AssetError::PackingOverflow));
    assert_eq!(pack(ContainerFormat::Bntx, &natural, &mut small), Err(AssetError::PackingOverflow));
    assert_eq!(pack(ContainerFormat::Nutexb, &natural[..100], &mut small), Err(AssetError::Serialization));
    assert_eq!(small, vec![0xeeu8; 100]);
}

#[test]
fn exact_fit_is_the_serialisation() {
    let natural: Vec<u8> = (1..=10).collect();
    let mut out = vec![0xeeu8; 10];
    assert_eq!(pack_serialized(&natural, 4, &mut out), Ok(10));
    assert_eq!(out, natural);
}

#[test]
fn smaller_image_has_its_header_at_the_end() {
    let natural: Vec<u8> = (1..=10).collect();
    let mut out = vec![0xeeu8; 16];
    assert_eq!(pack_serialized(&natural, 4, &mut out), Ok(16));
    // payload, the header where it was written, the old bytes, the header at the end
    assert_eq!(out, vec![1, 2, 3, 4, 5, 6, 7, 8, 9, 10, 0xee, 0xee, 7, 8, 9, 10]);
    assert_eq!(&out[16 - 4..], &natural[10 - 4..]);
}

#[test]
fn header_may_overlap_its_old_place() {
    let natural: Vec<u8> = (1..=10).collect();
    let mut out = vec![0xeeu8; 12];
    assert_eq!(pack_serialized(&natural, 4, &mut out), Ok(12));
    assert_eq!(out, vec![1, 2, 3, 4, 5, 6, 7, 8, 7, 8, 9, 10]);
}

#[test]
fn serialisation_may_be_all_header() {
    let natural = vec![5u8, 6, 7];
    let mut out = vec![0u8; 5];
    assert_eq!(pack_serialized(&natural, 3, &mut out), Ok(5));
    assert_eq!(out, vec![5, 6, 5, 6, 7]);
    let mut none = vec![9u8; 4];
    assert_eq!(pack_serialized(&[], 0, &mut none), Ok(4));
    assert_eq!(none, vec![9u8; 4]);
}

#[test]
fn overflow_is_refused_and_leaves_the_buffer() {
    let natural: Vec<u8> = (1..=10).collect();
    let mut out = vec![0xeeu8; 9];
    assert_eq!(pack_serialized(&natural, 4, &mut out), Err(AssetError::PackingOverflow));
    assert_eq!(out, vec![0xeeu8; 9]);
}

#[test]
fn serialisation_shorter_than_its_header_is_refused() {
    let natural = vec![1u8, 2, 3];
    let mut out = vec![0xeeu8; 9];
    assert_eq!(pack_serialized(&natural, 4, &mut out), Err(AssetError::Serialization));
    assert_eq!(out, vec![0xeeu8; 9]);
}

#[test]
fn nutexb_is_the_pixels_and_a_footer() {
    let mut img = Image::new(64, 64).unwrap();
    for y in 0..64u32 {
        for x in 0..64u32 {
            img.put_pixel(x, y, Rgba { r: x as u8, g: y as u8, b: (x ^ y) as u8, a: 255 });
        }
    }
    let mut out = vec![0u8; 64 * 64 * 4 + 0xb0];
    assert_eq!(pack_nutexb(&img, TEXTURE_NAME, &mut out), Ok(64 * 64 * 4 + 0xb0));
    assert_eq!(&out[..64 * 64 * 4], &img.as_raw()[..]);
    let footer = &out[64 * 64 * 4..];
    assert_eq!(&footer[0..4], &(64u32 * 64 * 4).to_le_bytes());
    assert_eq!(&footer[0x40..0x44], b" XNT");
    assert_eq!(&footer[0x44..0x44 + TEXTURE_NAME.len()], TEXTURE_NAME.as_bytes());
    assert_eq!(&footer[0xb0 - 8..0xb0 - 4], b" XET");
}

#[test]
fn nutexb_of_a_small_texture_fills_the_fixed_capacity() {
    let img = filled(64, 64, Rgba { r: 1, g: 2, b: 3, a: 4 });
    let mut exact = vec![0u8; 64 * 64 * 4 + 0xb0];
    pack_nutexb(&img, TEXTURE_NAME, &mut exact).unwrap();
    let mut out = vec![0x55u8; MAX_FILE_SIZE];
    assert_eq!(pack_nutexb(&img, TEXTURE_NAME, &mut out), Ok(MAX_FILE_SIZE));
    assert_eq!(&out[..64 * 64 * 4], &img.as_raw()[..]);
    assert_eq!(&out[MAX_FILE_SIZE - 0xb0..], &exact[64 * 64 * 4..]);
    // between the natural end and the header nothing was written
    assert!(out[64 * 64 * 4 + 0xb0..MAX_FILE_SIZE - 0xb0].iter().all(|b| *b == 0x55));
}

#[test]
fn nutexb_that_does_not_fit_is_refused() {
    let img = filled(64, 64, Rgba { r: 1, g: 2, b: 3, a: 4 });
    let mut out = vec![0x55u8; 64 * 64 * 4 + 0xb0 - 1];
    assert_eq!(pack_nutexb(&img, TEXTURE_NAME, &mut out), Err(AssetError::PackingOverflow));
    assert!(out.iter().all(|b| *b == 0x55));
}

#[test]
fn nutexb_with_a_footer_of_another_length_is_refused() {
    // a name of more than sixty bytes does not fit the footer's name field
    let img = filled(3, 3, Rgba { r: 1, g: 2, b: 3, a: 4 });
    let mut out = vec![0x55u8; 4096];
    let name = "n".repeat(61);
    assert_eq!(pack_nutexb(&img, &name, &mut out), Err(AssetError::Serialization));
    assert!(out.iter().all(|b| *b == 0x55));
    let name = "n".repeat(60);
    assert_eq!(pack_nutexb(&img, &name, &mut out), Ok(4096));
    assert_eq!(&out[..36], &img.as_raw()[..]);
}

#[test]
fn round_trip_of_a_red_legacy_skin() {
    let legacy = filled(64, 32, Rgba { r: 255, g: 0, b: 0, a: 255 });
    let mut graded = convert_to_modern_skin(&legacy);
    color_correct(&mut graded);
    assert_eq!((graded.width(), graded.height()), (64, 64));
    assert_eq!(graded.get_pixel(0, 0), Rgba { r: 184, g: 0, b: 0, a: 255 });
    assert_eq!(graded.get_pixel(0, 40), Rgba { r: 0, g: 0, b: 0, a: 0 });
    assert_eq!(graded.get_pixel(20, 48), Rgba { r: 184, g: 0, b: 0, a: 255 });

    let capacity = 64 * 64 * 4 + NUTEXB_FOOTER;
    let mut out = vec![0u8; capacity];
    let written = generate_texture(Some(legacy.clone()), &mut out);
    assert_eq!(written, Ok(capacity));
    assert_eq!(callback_outcome(&written), (true, capacity));
    assert_eq!(&out[..64 * 64 * 4], &graded.as_raw()[..]);

    let mut direct = vec![0u8; capacity];
    assert_eq!(pack_nutexb(&graded, TEXTURE_NAME, &mut direct), Ok(capacity));
    assert_eq!(out, direct);
}

#[test]
fn generation_without_a_source_is_not_handled() {
    let mut out = vec![7u8; 32];
    let r = generate_texture(None, &mut out);
    assert_eq!(r, Err(AssetError::NoSelection));
    assert_eq!(callback_outcome(&r), (false, 0));
    assert_eq!(out, vec![7u8; 32]);
}

#[test]
fn generation_into_a_buffer_that_is_too_small_is_not_handled() {
    let legacy = filled(64, 32, Rgba { r: 255, g: 0, b: 0, a: 255 });
    let mut out = vec![7u8; 1000];
    let r = generate_texture(Some(legacy), &mut out);
    assert_eq!(r, Err(AssetError::PackingOverflow));
    assert_eq!(callback_outcome(&r), (false, 0));
    assert_eq!(out, vec![7u8; 1000]);
}
