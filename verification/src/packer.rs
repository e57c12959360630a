//! Exact-size packing of a serialised image into a fixed-capacity buffer.

use crate::error::AssetError;
use crate::raster::{Image, ImageView};
use vstd::prelude::*;

verus! {

/// The two container formats a content id can ask for.
#[derive(Clone, Copy, Debug, PartialEq, Eq, Structural)]
pub enum ContainerFormat {
    /// Pixel payload followed by a fixed footer, which the host looks for at
    /// the end of the buffer; used for model textures.
    Nutexb,
    /// A file that the host reads from its start; used for icons and portraits.
    Bntx,
}

/// Length of the footer that ends a NUTEXB file.
pub const NUTEXB_FOOTER: usize = 0xb0;

impl ContainerFormat {
    /// Length of the block that ends a file of the format and that the host
    /// looks for at the end of its buffer; `None` for a format without one.
    pub open spec fn spec_trailer_len(self) -> Option<usize> {
        match self {
            ContainerFormat::Nutexb => Some(NUTEXB_FOOTER),
            ContainerFormat::Bntx => None,
        }
    }

    /// Length of the block that ends a file of the format and that the host
    /// looks for at the end of its buffer; `None` for a format without one.
    pub fn trailer_len(&self) -> (h: Option<usize>)
        ensures
            h == self.spec_trailer_len(),
    {
        match self {
            ContainerFormat::Nutexb => Some(NUTEXB_FOOTER),
            ContainerFormat::Bntx => None,
        }
    }
}

/// The buffer after packing: the natural serialisation from the start, the
/// metadata block (the last `header_len` bytes of the serialisation) moved to
/// the end of the buffer, and the old bytes wherever neither reaches.
pub open spec fn packed(natural: Seq<u8>, header_len: int, before: Seq<u8>) -> Seq<u8> {
    Seq::new(
        before.len(),
        |i: int|
            if i >= before.len() - header_len {
                natural[natural.len() - before.len() + i]
            } else if i < natural.len() {
                natural[i]
            } else {
                before[i]
            },
    )
}

/// What packing does to a buffer holding `before`: it fails when the
/// serialisation is shorter than its own metadata block or longer than the
/// buffer, and otherwise fills the buffer as [`packed`] says.
pub open spec fn pack_outcome(natural: Seq<u8>, header_len: int, before: Seq<u8>) -> Result<
    Seq<u8>,
    AssetError,
> {
    if natural.len() < header_len {
        Err(AssetError::Serialization)
    } else if natural.len() > before.len() {
        Err(AssetError::PackingOverflow)
    } else {
        Ok(packed(natural, header_len, before))
    }
}

/// Where the serialisation fills the buffer exactly, the buffer holds the
/// serialisation. Where it is shorter, the last `header_len` bytes of the
/// buffer are the last `header_len` bytes of the serialisation, and the
/// payload is where it was written.
pub proof fn lemma_packed(natural: Seq<u8>, header_len: int, before: Seq<u8>)
    requires
        0 <= header_len <= natural.len() <= before.len(),
    ensures
        packed(natural, header_len, before).len() == before.len(),
        natural.len() == before.len() ==> packed(natural, header_len, before) == natural,
        packed(natural, header_len, before).subrange(before.len() - header_len, before.len() as int)
            == natural.subrange(natural.len() - header_len, natural.len() as int),
        packed(natural, header_len, before).subrange(0, natural.len() - header_len) == natural.subrange(
            0,
            natural.len() - header_len,
        ),
{
    let p = packed(natural, header_len, before);
    if natural.len() == before.len() {
        assert(p =~= natural);
    }
    assert(p.subrange(before.len() - header_len, before.len() as int) =~= natural.subrange(
        natural.len() - header_len,
        natural.len() as int,
    ));
    assert(p.subrange(0, natural.len() - header_len) =~= natural.subrange(0, natural.len() - header_len));
}

/// Packs a natural serialisation, whose last `header_len` bytes are the
/// metadata block, into `out`, whose length is the fixed capacity. On success
/// the whole capacity is reported as written. On failure `out` is untouched.
pub fn pack_serialized(natural: &[u8], header_len: usize, out: &mut [u8]) -> (r: Result<usize, AssetError>)
    ensures
        (match pack_outcome(natural@, header_len as int, old(out)@) {
            Ok(bytes) => r == Ok::<usize, AssetError>(old(out)@.len() as usize) && final(out)@ == bytes,
            Err(e) => r == Err::<usize, AssetError>(e) && final(out)@ == old(out)@,
        }),
{
    let real_size = natural.len();
    let capacity = out.len();
    if real_size < header_len {
        return Err(AssetError::Serialization);
    }
    if real_size > capacity {
        return Err(AssetError::PackingOverflow);
    }
    let ghost before = out@;
    let mut i: usize = 0;
    while i < real_size
        invariant
            i <= real_size <= capacity,
            real_size == natural@.len(),
            out@.len() == capacity,
            before.len() == capacity,
            forall|k: int| 0 <= k < i ==> out@[k] == natural@[k],
            forall|k: int| i <= k < capacity ==> out@[k] == before[k],
        decreases real_size - i,
    {
        out[i] = natural[i];
        i += 1;
    }
    let start_of_header = real_size - header_len;
    let target = capacity - header_len;
    let mut k: usize = 0;
    while k < header_len
        invariant
            k <= header_len <= real_size <= capacity,
            real_size == natural@.len(),
            out@.len() == capacity,
            before.len() == capacity,
            start_of_header == real_size - header_len,
            target == capacity - header_len,
            forall|j: int| 0 <= j < target && j < real_size ==> out@[j] == natural@[j],
            forall|j: int| real_size <= j < target ==> out@[j] == before[j],
            forall|j: int| target <= j < target + k ==> out@[j] == natural@[start_of_header + (j - target)],
            forall|j: int| target + k <= j < capacity ==> out@[j] == (if j < real_size {
                natural@[j]
            } else {
                before[j]
            }),
        decreases header_len - k,
    {
        out[target + k] = natural[start_of_header + k];
        k += 1;
    }
    proof {
        assert(out@ =~= packed(natural@, header_len as int, before));
    }
    Ok(capacity)
}

/// What writing a file from the start of a buffer holding `before` does: it
/// fails when the file is longer than the buffer, and otherwise leaves the
/// file followed by the old bytes behind it.
pub open spec fn whole_outcome(natural: Seq<u8>, before: Seq<u8>) -> Result<Seq<u8>, AssetError> {
    if natural.len() > before.len() {
        Err(AssetError::PackingOverflow)
    } else {
        Ok(natural + before.subrange(natural.len() as int, before.len() as int))
    }
}

/// Writes a serialisation that has no trailing block from the start of `out`
/// and reports its own length as written. On failure `out` is untouched.
pub fn pack_whole(natural: &[u8], out: &mut [u8]) -> (r: Result<usize, AssetError>)
    ensures
        (match whole_outcome(natural@, old(out)@) {
            Ok(bytes) => r == Ok::<usize, AssetError>(natural@.len() as usize) && final(out)@ == bytes,
            Err(e) => r == Err::<usize, AssetError>(e) && final(out)@ == old(out)@,
        }),
{
    let real_size = natural.len();
    if real_size > out.len() {
        return Err(AssetError::PackingOverflow);
    }
    let ghost before = out@;
    let mut i: usize = 0;
    while i < real_size
        invariant
            i <= real_size <= out@.len(),
            real_size == natural@.len(),
            before.len() == out@.len(),
            forall|k: int| 0 <= k < i ==> out@[k] == natural@[k],
            forall|k: int| i <= k < out@.len() ==> out@[k] == before[k],
        decreases real_size - i,
    {
        out[i] = natural[i];
        i += 1;
    }
    proof {
        assert(out@ =~= natural@ + before.subrange(real_size as int, before.len() as int));
    }
    Ok(real_size)
}

/// What packing a serialisation of a format does to a buffer holding
/// `before`, and how many bytes count as written: the whole buffer for a
/// format with a trailing block, the file's length for one without.
pub open spec fn format_outcome(format: ContainerFormat, natural: Seq<u8>, before: Seq<u8>) -> Result<
    (Seq<u8>, usize),
    AssetError,
> {
    match format.spec_trailer_len() {
        Some(h) => match pack_outcome(natural, h as int, before) {
            Ok(bytes) => Ok((bytes, before.len() as usize)),
            Err(e) => Err(e),
        },
        None => match whole_outcome(natural, before) {
            Ok(bytes) => Ok((bytes, natural.len() as usize)),
            Err(e) => Err(e),
        },
    }
}

/// Packs a serialisation of the given format into `out`, whose length is the
/// fixed capacity of the content id. On failure `out` is untouched.
pub fn pack(format: ContainerFormat, natural: &[u8], out: &mut [u8]) -> (r: Result<usize, AssetError>)
    ensures
        (match format_outcome(format, natural@, old(out)@) {
            Ok(done) => r == Ok::<usize, AssetError>(done.1) && final(out)@ == done.0,
            Err(e) => r == Err::<usize, AssetError>(e) && final(out)@ == old(out)@,
        }),
{
    match format.trailer_len() {
        Some(h) => pack_serialized(natural, h, out),
        None => pack_whole(natural, out),
    }
}

/// The bytes of the NUTEXB file that stores an RGBA image under a name, with
/// the pixels in row order; `None` where the writer gives none.
pub uninterp spec fn nutexb_file(name: Seq<char>, width: u32, height: u32, pixels: Seq<u8>) -> Option<
    Seq<u8>,
>;

/// Calls `nutexb::writer::write_nutexb_unswizzled` into an in-memory buffer.
/// Trusted: the bytes written are a function of the name and the image, and
/// they start with the image's own bytes, the footer coming after them.
#[verifier::external_body]
fn write_nutexb_unswizzled(name: &str, img: &Image) -> (r: Option<Vec<u8>>)
    requires
        img@.wf(),
    ensures
        r matches Some(bytes) ==> nutexb_file(name@, img@.width as u32, img@.height as u32, img@.pixels)
            == Some(bytes@) && bytes@.len() >= img@.pixels.len() && bytes@.subrange(
            0,
            img@.pixels.len() as int,
        ) == img@.pixels,
        r is None ==> nutexb_file(name@, img@.width as u32, img@.height as u32, img@.pixels) is None,
{
    let picture = ::image::DynamicImage::ImageRgba8(
        ::image::RgbaImage::from_raw(img.width(), img.height(), img.as_raw().clone()).unwrap(),
    );
    let mut bytes: Vec<u8> = Vec::new();
    match ::nutexb::writer::write_nutexb_unswizzled(name, &picture, &mut bytes) {
        Ok(()) => Some(bytes),
        Err(_) => None,
    }
}

/// What packing an image as a NUTEXB file does to a buffer holding `before`.
/// A file whose footer is not of the fixed length is refused.
pub open spec fn nutexb_outcome(name: Seq<char>, img: ImageView, before: Seq<u8>) -> Result<
    Seq<u8>,
    AssetError,
> {
    match nutexb_file(name, img.width as u32, img.height as u32, img.pixels) {
        Some(natural) => if natural.len() == img.pixels.len() + NUTEXB_FOOTER {
            pack_outcome(natural, NUTEXB_FOOTER as int, before)
        } else {
            Err(AssetError::Serialization)
        },
        None => Err(AssetError::Serialization),
    }
}

/// Serialises the image as a NUTEXB file under `name` and packs it into `out`,
/// whose length is the fixed capacity of the content id.
pub fn pack_nutexb(img: &Image, name: &str, out: &mut [u8]) -> (r: Result<usize, AssetError>)
    requires
        img@.wf(),
    ensures
        (match nutexb_outcome(name@, img@, old(out)@) {
            Ok(bytes) => r == Ok::<usize, AssetError>(old(out)@.len() as usize) && final(out)@ == bytes
                && bytes.subrange(0, img@.pixels.len() as int) == img@.pixels,
            Err(e) => r == Err::<usize, AssetError>(e) && final(out)@ == old(out)@,
        }),
{
    let natural = match write_nutexb_unswizzled(name, img) {
        Some(bytes) => bytes,
        None => {
            return Err(AssetError::Serialization);
        },
    };
    let payload = img.as_raw().len();
    if natural.len() - payload != NUTEXB_FOOTER {
        return Err(AssetError::Serialization);
    }
    let ghost before = out@;
    let r = pack_serialized(natural.as_slice(), NUTEXB_FOOTER, out);
    proof {
        if r.is_ok() {
            lemma_packed(natural@, NUTEXB_FOOTER as int, before);
            assert(out@.subrange(0, payload as int) =~= out@.subrange(0, natural@.len() - NUTEXB_FOOTER));
            assert(natural@.subrange(0, payload as int) =~= natural@.subrange(
                0,
                natural@.len() - NUTEXB_FOOTER,
            ));
        }
    }
    r
}

} // verus!
