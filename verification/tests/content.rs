use minecraft_skins::error::AssetError;
use minecraft_skins::packer::ContainerFormat;
use minecraft_skins::pipeline::{
    callback_outcome, locate, looks_like_legacy, prepare_skin, render_content, render_icon,
    render_texture, PipelineOptions,
};
use minecraft_skins::raster::{Image, Rgba};
use minecraft_skins::skin_files::{
    content_path, ContentDescriptor, ContentKind, ContentTable, MAX_CHARA_3_SIZE, MAX_CHARA_4_SIZE,
    MAX_CHARA_6_SIZE, MAX_DATA_SIZE, MAX_FILE_SIZE, MAX_HEIGHT, MAX_STOCK_ICON_SIZE, MAX_WIDTH,
};
use minecraft_skins::slots::SlotStore;
use minecraft_skins::color_correct::grade_channel;
use minecraft_skins::modern_skin::convert_to_modern_skin;

fn filled(width: u32, height: u32, p: Rgba) -> Image {
    let mut img = Image::new(width, height).unwrap();
    for y in 0..height {
        for x in 0..width {
            img.put_pixel(x, y, p);
        }
    }
    img
}

#[test]
fn capacities_and_formats_of_the_kinds() {
    assert_eq!(MAX_DATA_SIZE, MAX_WIDTH * MAX_HEIGHT * 4);
    assert_eq!(MAX_FILE_SIZE, 1024 * 1024 * 4 + 0xb0);
    assert_eq!(ContentKind::PrimaryTexture.capacity(), MAX_FILE_SIZE);
    assert_eq!(ContentKind::ListIcon.capacity(), 0x9c68);
    assert_eq!(ContentKind::PortraitSmall.capacity(), 0x2d068);
    assert_eq!(ContentKind::PortraitMedium.capacity(), 0x81068);
    assert_eq!(ContentKind::PortraitLarge.capacity(), 0x727068);
    assert_eq!(MAX_STOCK_ICON_SIZE, 0x9c68);
    assert_eq!((MAX_CHARA_3_SIZE, MAX_CHARA_4_SIZE, MAX_CHARA_6_SIZE), (0x727068, 0x2d068, 0x81068));
    assert_eq!(ContentKind::PrimaryTexture.format(), ContainerFormat::Nutexb);
    assert_eq!(ContentKind::ListIcon.format(), ContainerFormat::Bntx);
    assert_eq!(ContentKind::PortraitSmall.format(), ContainerFormat::Bntx);
    assert_eq!(ContentKind::PortraitMedium.format(), ContainerFormat::Bntx);
    assert_eq!(ContentKind::PortraitLarge.format(), ContainerFormat::Bntx);
}

#[test]
fn paths_of_the_assets() {
    assert_eq!(
        content_path(ContentKind::PrimaryTexture, 0),
        "fighter/pickel/model/body/c00/def_pickel_001_col.nutexb"
    );
    assert_eq!(
        content_path(ContentKind::PrimaryTexture, 7),
        "fighter/pickel/model/body/c07/def_pickel_001_col.nutexb"
    );
    assert_eq!(
        content_path(ContentKind::ListIcon, 3),
        "ui/replace_patch/chara/chara_2/chara_2_pickel_03.bntx"
    );
    assert_eq!(
        content_path(ContentKind::PortraitLarge, 1),
        "ui/replace_patch/chara/chara_3/chara_3_pickel_01.bntx"
    );
    assert_eq!(
        content_path(ContentKind::PortraitSmall, 6),
        "ui/replace_patch/chara/chara_4/chara_4_pickel_06.bntx"
    );
    assert_eq!(
        content_path(ContentKind::PortraitMedium, 5),
        "ui/replace_patch/chara/chara_6/chara_6_pickel_05.bntx"
    );
    for slot in 0..8 {
        assert_eq!(
            content_path(ContentKind::ListIcon, slot),
            format!("ui/replace_patch/chara/chara_2/chara_2_pickel_0{}.bntx", slot)
        );
    }
}

#[test]
fn table_holds_one_descriptor_for_each_id() {
    let mut table = ContentTable::new();
    assert_eq!(table.len(), 0);
    assert_eq!(table.resolve(10), None);
    assert!(table.register(10, ContentKind::PrimaryTexture, 2));
    assert!(table.register(11, ContentKind::ListIcon, 2));
    assert!(!table.register(10, ContentKind::PortraitSmall, 5));
    assert_eq!(table.len(), 2);
    assert_eq!(
        table.resolve(10),
        Some(ContentDescriptor {
            id: 10,
            kind: ContentKind::PrimaryTexture,
            slot: 2,
            capacity: MAX_FILE_SIZE,
            format: ContainerFormat::Nutexb,
        })
    );
    assert_eq!(
        table.resolve(11),
        Some(ContentDescriptor {
            id: 11,
            kind: ContentKind::ListIcon,
            slot: 2,
            capacity: 0x9c68,
            format: ContainerFormat::Bntx,
        })
    );
    assert_eq!(table.resolve(12), None);
}

#[test]
fn table_serves_an_id_as_its_own_kind_only() {
    let mut table = ContentTable::new();
    table.register(10, ContentKind::PrimaryTexture, 2);
    table.register(11, ContentKind::PortraitLarge, 7);
    let texture = table.resolve_kind(10, ContentKind::PrimaryTexture).unwrap();
    assert_eq!((texture.id, texture.kind, texture.slot), (10, ContentKind::PrimaryTexture, 2));
    assert_eq!(table.resolve_kind(10, ContentKind::ListIcon), Err(AssetError::UnknownContent));
    assert_eq!(table.resolve_kind(11, ContentKind::PortraitSmall), Err(AssetError::UnknownContent));
    assert_eq!(table.resolve_kind(11, ContentKind::PortraitLarge), Ok(table.resolve(11).unwrap()));
    assert_eq!(table.resolve_kind(12, ContentKind::PrimaryTexture), Err(AssetError::UnknownContent));
}

#[test]
fn locate_needs_a_registered_id_and_a_selection() {
    let mut table = ContentTable::new();
    table.register(100, ContentKind::PrimaryTexture, 0);
    table.register(101, ContentKind::PrimaryTexture, 1);
    let mut store = SlotStore::new();
    store.select(1, Some("one.png".to_string()));
    assert_eq!(locate(&table, &store, 7).err(), Some(AssetError::UnknownContent));
    assert_eq!(locate(&table, &store, 100).err(), Some(AssetError::NoSelection));
    let found = locate(&table, &store, 101).ok().unwrap();
    assert_eq!(found.path, "one.png");
    assert_eq!(found.descriptor.slot, 1);
    assert_eq!(found.descriptor.id, 101);
    assert_eq!(found.descriptor.kind, ContentKind::PrimaryTexture);
}

#[test]
fn prepare_converts_a_legacy_skin_only() {
    let legacy = filled(64, 32, Rgba { r: 9, g: 8, b: 7, a: 255 });
    let modern = prepare_skin(legacy.clone()).ok().unwrap();
    assert_eq!(modern.as_raw(), convert_to_modern_skin(&legacy).as_raw());

    let square = filled(64, 64, Rgba { r: 9, g: 8, b: 7, a: 255 });
    assert_eq!(prepare_skin(square.clone()).ok().unwrap().as_raw(), square.as_raw());

    let odd = filled(30, 50, Rgba { r: 9, g: 8, b: 7, a: 255 });
    assert_eq!(prepare_skin(odd.clone()).ok().unwrap().as_raw(), odd.as_raw());
}

#[test]
fn malformed_legacy_skin_is_a_precondition_error() {
    let bad = filled(100, 50, Rgba { r: 9, g: 8, b: 7, a: 255 });
    assert_eq!(prepare_skin(bad.clone()).err(), Some(AssetError::Precondition));
    assert_eq!(render_texture(bad.clone()).err(), Some(AssetError::Precondition));
    let outline = Image::new(64, 64).unwrap();
    assert_eq!(render_icon(bad, &outline, PipelineOptions::new()).err(), Some(AssetError::Precondition));
    let empty = Image::new(0, 0).unwrap();
    assert_eq!(prepare_skin(empty).err(), Some(AssetError::Precondition));
}

#[test]
fn texture_is_the_graded_modern_layout() {
    let legacy = filled(64, 32, Rgba { r: 200, g: 100, b: 50, a: 255 });
    let texture = render_texture(legacy).ok().unwrap();
    assert_eq!((texture.width(), texture.height()), (64, 64));
    assert_eq!(
        texture.get_pixel(3, 3),
        Rgba { r: grade_channel(200), g: grade_channel(100), b: grade_channel(50), a: 255 }
    );
    assert_eq!(texture.get_pixel(3, 40), Rgba { r: 0, g: 0, b: 0, a: 0 });
}

#[test]
fn icon_needs_a_square_skin_of_a_base_unit() {
    let outline = Image::new(64, 64).unwrap();
    let flat = filled(64, 30, Rgba { r: 9, g: 8, b: 7, a: 255 });
    assert_eq!(render_icon(flat, &outline, PipelineOptions::new()).err(), Some(AssetError::Precondition));
    let tiny = filled(32, 32, Rgba { r: 9, g: 8, b: 7, a: 255 });
    assert_eq!(render_icon(tiny, &outline, PipelineOptions::new()).err(), Some(AssetError::Precondition));
    let legacy = filled(64, 32, Rgba { r: 9, g: 8, b: 7, a: 255 });
    let icon = render_icon(legacy, &outline, PipelineOptions::new()).ok().unwrap();
    assert_eq!((icon.width(), icon.height()), (64, 64));
}

#[test]
fn icon_step_can_leave_the_conversion_out() {
    let outline = Image::new(64, 64).unwrap();
    let plain = PipelineOptions { convert_before_icon: false };
    assert!(PipelineOptions::new().convert_before_icon);
    // a legacy skin is not square: without the conversion it has no icon
    let legacy = filled(64, 32, Rgba { r: 9, g: 8, b: 7, a: 255 });
    assert_eq!(render_icon(legacy.clone(), &outline, plain).err(), Some(AssetError::Precondition));
    // the face lies in the part that the conversion keeps: a square skin
    // gives the icon of the converted legacy skin with the same upper half
    let mut square = Image::new(64, 64).unwrap();
    assert!(square.copy_from(&legacy, 0, 0));
    let converted = render_icon(legacy, &outline, PipelineOptions::new()).ok().unwrap();
    let direct = render_icon(square, &outline, plain).ok().unwrap();
    assert_eq!(direct.as_raw(), converted.as_raw());
}

#[test]
fn legacy_is_twice_as_wide_as_high() {
    assert!(looks_like_legacy(64, 32));
    assert!(looks_like_legacy(100, 50));
    assert!(looks_like_legacy(0, 0));
    assert!(!looks_like_legacy(64, 64));
    assert!(!looks_like_legacy(32, 64));
    assert!(!looks_like_legacy(u32::MAX, u32::MAX / 2));
    assert!(looks_like_legacy(u32::MAX - 1, u32::MAX / 2));
}

#[test]
fn content_follows_its_kind() {
    let outline = Image::new(80, 72).unwrap();
    let legacy = filled(64, 32, Rgba { r: 200, g: 100, b: 50, a: 255 });
    let texture = render_texture(legacy.clone()).ok().unwrap();
    let icon = render_icon(legacy.clone(), &outline, PipelineOptions::new()).ok().unwrap();
    for kind in [
        ContentKind::PrimaryTexture,
        ContentKind::PortraitSmall,
        ContentKind::PortraitMedium,
        ContentKind::PortraitLarge,
    ] {
        let got = render_content(kind, Some(legacy.clone()), &outline, PipelineOptions::new()).ok().unwrap();
        assert_eq!(got.as_raw(), texture.as_raw());
    }
    let got = render_content(ContentKind::ListIcon, Some(legacy), &outline, PipelineOptions::new()).ok().unwrap();
    assert_eq!(got.as_raw(), icon.as_raw());
    assert_eq!((got.width(), got.height()), (80, 72));
    assert_eq!(
        render_content(ContentKind::ListIcon, None, &outline, PipelineOptions::new()).err(),
        Some(AssetError::NoSelection)
    );
}

#[test]
fn every_failure_is_reported_as_not_handled() {
    assert_eq!(callback_outcome(&Ok(1234)), (true, 1234));
    for e in [
        AssetError::UnknownContent,
        AssetError::NoSelection,
        AssetError::Precondition,
        AssetError::PackingOverflow,
        AssetError::PaletteExtraction,
        AssetError::Serialization,
    ] {
        assert_eq!(callback_outcome(&Err(e)), (false, 0));
        assert!(!e.message().is_empty());
    }
}
