//! From a selected source image and a content kind to the final image, and
//! from there into the host's buffer.

use crate::color_correct::{color_correct, graded};
use crate::error::AssetError;
use crate::modern_skin::{convert_to_modern_skin, has_legacy_layout, is_legacy, modern_layout};
use crate::packer::{nutexb_outcome, pack_nutexb};
use crate::raster::{Image, ImageView};
use crate::skin_files::{has_id, table_wf, ContentDescriptor, ContentKind, ContentTable};
use crate::slots::{SlotStore, SLOT_COUNT};
use crate::stock_generation::{gen_stock_image, stock_image};
use vstd::prelude::*;

verus! {

/// Name stored in the footer of a generated model texture.
pub const TEXTURE_NAME: &'static str = "steve_minecraft???";

/// A skin counts as legacy exactly when it is twice as wide as high.
pub open spec fn looks_legacy(v: ImageView) -> bool {
    v.width == 2 * v.height
}

/// The skin in the modern layout: a legacy skin is converted, any other image
/// is taken to be modern already. A legacy skin whose sides are not multiples
/// of 64 and 32, or whose conversion could not be held in memory, is refused.
pub open spec fn prepared(v: ImageView) -> Result<ImageView, AssetError> {
    if looks_legacy(v) {
        if is_legacy(v) && v.width * v.width * 4 <= Image::max_bytes() {
            Ok(modern_layout(v))
        } else {
            Err(AssetError::Precondition)
        }
    } else {
        Ok(v)
    }
}

/// The model texture made from a source image: the modern layout, graded.
pub open spec fn texture_of(v: ImageView) -> Result<ImageView, AssetError> {
    match prepared(v) {
        Ok(m) => Ok(graded(m)),
        Err(e) => Err(e),
    }
}

/// How the pipeline is set up.
#[derive(Clone, Copy, Debug, PartialEq, Eq, Structural)]
pub struct PipelineOptions {
    /// Whether a legacy skin is converted before its list icon is made. Without
    /// it only a skin that is square already has a list icon.
    pub convert_before_icon: bool,
}

impl PipelineOptions {
    /// Legacy skins are converted before their list icon is made.
    pub fn new() -> (options: PipelineOptions)
        ensures
            options.convert_before_icon,
    {
        PipelineOptions { convert_before_icon: true }
    }
}

/// The list icon made from a source image on an outline: the stock icon of
/// the skin, in the modern layout where legacy skins are converted first; the
/// skin the icon is made from must be square and at least one base unit wide.
pub open spec fn icon_of(v: ImageView, outline: ImageView, options: PipelineOptions) -> Result<
    ImageView,
    AssetError,
> {
    match (if options.convert_before_icon {
        prepared(v)
    } else {
        Ok(v)
    }) {
        Ok(m) => if m.width == m.height && m.width >= 64 {
            match stock_image(m, outline) {
                Some(icon) => Ok(icon),
                None => Err(AssetError::PaletteExtraction),
            }
        } else {
            Err(AssetError::Precondition)
        },
        Err(e) => Err(e),
    }
}

/// The final image of a content kind. A portrait is drawn from the model
/// texture, which is what this gives for the three portrait kinds.
pub open spec fn content_of(
    kind: ContentKind,
    source: Option<ImageView>,
    outline: ImageView,
    options: PipelineOptions,
) -> Result<ImageView, AssetError> {
    match source {
        None => Err(AssetError::NoSelection),
        Some(v) => match kind {
            ContentKind::ListIcon => icon_of(v, outline, options),
            _ => texture_of(v),
        },
    }
}

/// Whether an image of this size counts as a legacy skin.
pub fn looks_like_legacy(width: u32, height: u32) -> (b: bool)
    ensures
        b == (width == 2 * height),
{
    height <= width && width - height == height
}

/// The value of an image that may be missing.
pub open spec fn view_of(source: Option<Image>) -> Option<ImageView> {
    match source {
        Some(img) => Some(img@),
        None => None,
    }
}

/// Brings a source image into the modern layout.
pub fn prepare_skin(skin: Image) -> (r: Result<Image, AssetError>)
    requires
        skin@.wf(),
    ensures
        r matches Ok(img) ==> prepared(skin@) == Ok::<ImageView, AssetError>(img@) && img@.wf(),
        r matches Err(e) ==> prepared(skin@) == Err::<ImageView, AssetError>(e),
{
    let width = skin.width();
    let height = skin.height();
    if looks_like_legacy(width, height) {
        if has_legacy_layout(&skin) && Image::can_hold(width, width) {
            Ok(convert_to_modern_skin(&skin))
        } else {
            Err(AssetError::Precondition)
        }
    } else {
        Ok(skin)
    }
}

/// Makes the model texture from a source image.
pub fn render_texture(skin: Image) -> (r: Result<Image, AssetError>)
    requires
        skin@.wf(),
    ensures
        r matches Ok(img) ==> texture_of(skin@) == Ok::<ImageView, AssetError>(img@) && img@.wf(),
        r matches Err(e) ==> texture_of(skin@) == Err::<ImageView, AssetError>(e),
{
    match prepare_skin(skin) {
        Ok(mut modern) => {
            color_correct(&mut modern);
            Ok(modern)
        },
        Err(e) => Err(e),
    }
}

/// Makes the list icon from a source image and the outline it is laid over.
pub fn render_icon(skin: Image, outline: &Image, options: PipelineOptions) -> (r: Result<Image, AssetError>)
    requires
        skin@.wf(),
        outline@.wf(),
    ensures
        r matches Ok(img) ==> icon_of(skin@, outline@, options) == Ok::<ImageView, AssetError>(img@)
            && img@.wf() && img@.same_size(outline@),
        r matches Err(e) ==> icon_of(skin@, outline@, options) == Err::<ImageView, AssetError>(e),
{
    let prepared = if options.convert_before_icon {
        prepare_skin(skin)
    } else {
        Ok(skin)
    };
    match prepared {
        Ok(modern) => {
            if modern.width() == modern.height() && modern.width() >= 64 {
                gen_stock_image(&modern, outline)
            } else {
                Err(AssetError::Precondition)
            }
        },
        Err(e) => Err(e),
    }
}

/// Makes the final image of a content kind from the decoded source image of
/// its slot; `None` stands for a slot without a selection or a file that
/// could not be decoded.
pub fn render_content(
    kind: ContentKind,
    source: Option<Image>,
    outline: &Image,
    options: PipelineOptions,
) -> (r: Result<Image, AssetError>)
    requires
        source matches Some(img) ==> img@.wf(),
        outline@.wf(),
    ensures
        r matches Ok(img) ==> img@.wf() && content_of(kind, view_of(source), outline@, options) == Ok::<
            ImageView,
            AssetError,
        >(img@),
        r matches Err(e) ==> content_of(kind, view_of(source), outline@, options) == Err::<
            ImageView,
            AssetError,
        >(e),
{
    match source {
        None => Err(AssetError::NoSelection),
        Some(skin) => match kind {
            ContentKind::ListIcon => render_icon(skin, outline, options),
            _ => render_texture(skin),
        },
    }
}

/// What generating a model texture does to a buffer holding `before`.
pub open spec fn texture_outcome(source: Option<ImageView>, before: Seq<u8>) -> Result<Seq<u8>, AssetError> {
    match source {
        None => Err(AssetError::NoSelection),
        Some(v) => match texture_of(v) {
            Ok(img) => nutexb_outcome(TEXTURE_NAME@, img, before),
            Err(e) => Err(e),
        },
    }
}

/// Generates the model texture of a slot into `out`, whose length is the fixed
/// capacity of the content id: the source image is brought into the modern
/// layout, graded, serialised and packed. On failure `out` is untouched.
pub fn generate_texture(source: Option<Image>, out: &mut [u8]) -> (r: Result<usize, AssetError>)
    requires
        source matches Some(img) ==> img@.wf(),
    ensures
        (match texture_outcome(view_of(source), old(out)@) {
            Ok(bytes) => r == Ok::<usize, AssetError>(old(out)@.len() as usize) && final(out)@ == bytes,
            Err(e) => r == Err::<usize, AssetError>(e) && final(out)@ == old(out)@,
        }),
{
    match source {
        None => Err(AssetError::NoSelection),
        Some(skin) => match render_texture(skin) {
            Ok(img) => pack_nutexb(&img, TEXTURE_NAME, out),
            Err(e) => Err(e),
        },
    }
}

/// What the host is told: whether the request was handled, and how many bytes
/// were written. Every failure is reported as not handled, with nothing written.
pub fn callback_outcome(r: &Result<usize, AssetError>) -> (reply: (bool, usize))
    ensures
        reply == (match *r {
            Ok(n) => (true, n),
            Err(_) => (false, 0usize),
        }),
{
    match r {
        Ok(n) => (true, *n),
        Err(_) => (false, 0),
    }
}

/// The descriptor of a content id and the source path selected for its slot.
pub struct Request {
    pub descriptor: ContentDescriptor,
    pub path: String,
}

/// Finds what a content id asks for and which source image serves it: the id
/// must be registered and its slot must have a selection.
pub fn locate(table: &ContentTable, store: &SlotStore, id: u64) -> (r: Result<Request, AssetError>)
    requires
        table_wf(table@),
        store.wf(),
    ensures
        r matches Ok(req) ==> table@.contains(req.descriptor) && req.descriptor.id == id
            && req.descriptor.slot < SLOT_COUNT && store.slot(req.descriptor.slot as int).selected()
            == Some(req.path),
        r matches Err(e) ==> (e == AssetError::UnknownContent && !has_id(table@, id)) || (e
            == AssetError::NoSelection && exists|d: ContentDescriptor|
            table@.contains(d) && d.id == id && d.slot < SLOT_COUNT && store.slot(
                d.slot as int,
            ).selected() is None),
{
    match table.resolve(id) {
        None => Err(AssetError::UnknownContent),
        Some(descriptor) => {
            assert(descriptor.wf());
            match store.get_selected(descriptor.slot) {
                None => Err(AssetError::NoSelection),
                Some(path) => Ok(Request { descriptor, path }),
            }
        },
    }
}

} // verus!
