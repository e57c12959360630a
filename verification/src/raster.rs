//! An owned RGBA raster with bounds-checked pixel access and rectangle primitives.

use vstd::prelude::*;

verus! {

/// One pixel: red, green, blue and alpha, eight bits each.
#[derive(Clone, Copy, Debug, PartialEq, Eq, Structural)]
pub struct Rgba {
    pub r: u8,
    pub g: u8,
    pub b: u8,
    pub a: u8,
}

/// The pixel of a blank raster: black and fully transparent.
pub open spec fn transparent() -> Rgba {
    Rgba { r: 0, g: 0, b: 0, a: 0 }
}

/// A rectangle of pixels inside a raster, by its top-left corner and its size.
#[derive(Clone, Copy, Debug, PartialEq, Eq, Structural)]
pub struct Rect {
    pub x: u32,
    pub y: u32,
    pub width: u32,
    pub height: u32,
}

impl Rect {
    /// Whether the pixel `(px, py)` lies inside the rectangle.
    pub open spec fn contains(self, px: int, py: int) -> bool {
        self.x <= px < self.x + self.width && self.y <= py < self.y + self.height
    }
}

/// The mathematical value of an [`Image`]: its size and its bytes, row by row,
/// four bytes per pixel in the order red, green, blue, alpha.
pub struct ImageView {
    pub width: nat,
    pub height: nat,
    pub pixels: Seq<u8>,
}

impl ImageView {
    /// The byte buffer holds exactly `width * height` pixels.
    pub open spec fn wf(self) -> bool {
        self.pixels.len() == self.width * self.height * 4
    }

    /// Whether `(x, y)` is a pixel of the image.
    pub open spec fn in_bounds(self, x: int, y: int) -> bool {
        0 <= x < self.width && 0 <= y < self.height
    }

    /// Whether the rectangle lies wholly inside the image.
    pub open spec fn holds(self, r: Rect) -> bool {
        r.x + r.width <= self.width && r.y + r.height <= self.height
    }

    /// Offset of the first byte of pixel `(x, y)`.
    pub open spec fn offset(self, x: int, y: int) -> int {
        (y * self.width + x) * 4
    }

    /// The pixel at `(x, y)`.
    pub open spec fn pixel(self, x: int, y: int) -> Rgba {
        let o = self.offset(x, y);
        Rgba { r: self.pixels[o], g: self.pixels[o + 1], b: self.pixels[o + 2], a: self.pixels[o + 3] }
    }

    /// The image with pixel `(x, y)` replaced by `p`.
    pub open spec fn with_pixel(self, x: int, y: int, p: Rgba) -> ImageView {
        let o = self.offset(x, y);
        ImageView {
            pixels: self.pixels.update(o, p.r).update(o + 1, p.g).update(o + 2, p.b).update(o + 3, p.a),
            ..self
        }
    }

    /// The pixel that byte `i` belongs to.
    pub open spec fn pixel_of_byte(self, i: int) -> Rgba {
        let o = i - i % 4;
        Rgba { r: self.pixels[o], g: self.pixels[o + 1], b: self.pixels[o + 2], a: self.pixels[o + 3] }
    }

    /// The image with `f` applied to every pixel.
    pub open spec fn mapped(self, f: spec_fn(Rgba) -> Rgba) -> ImageView {
        ImageView {
            pixels: Seq::new(self.pixels.len(), |i: int| channel(f(self.pixel_of_byte(i)), i % 4)),
            ..self
        }
    }

    /// The image of the given size whose pixel at `(x, y)` is `f(x, y)`.
    pub open spec fn from_fn(width: nat, height: nat, f: spec_fn(int, int) -> Rgba) -> ImageView {
        ImageView {
            width,
            height,
            pixels: Seq::new(
                width * height * 4,
                |i: int| channel(f((i / 4) % (width as int), (i / 4) / (width as int)), i % 4),
            ),
        }
    }

    /// The rectangle `r` of the image as an image of its own.
    pub open spec fn cropped(self, r: Rect) -> ImageView {
        ImageView::from_fn(r.width as nat, r.height as nat, |x: int, y: int| self.pixel(r.x + x, r.y + y))
    }

    /// The image after rectangle `src` was copied so that its top-left corner
    /// lies at `(to_x, to_y)`, the source being read in full before anything
    /// is written.
    pub open spec fn copied_within(self, src: Rect, to_x: u32, to_y: u32) -> ImageView {
        ImageView::from_fn(
            self.width,
            self.height,
            |x: int, y: int|
                if moved(src, to_x, to_y).contains(x, y) {
                    self.pixel(x - to_x + src.x, y - to_y + src.y)
                } else {
                    self.pixel(x, y)
                },
        )
    }

    /// The image with rectangle `r` mirrored left to right.
    pub open spec fn flipped(self, r: Rect) -> ImageView {
        ImageView::from_fn(
            self.width,
            self.height,
            |x: int, y: int|
                if r.contains(x, y) {
                    self.pixel(r.x + (r.width - 1 - (x - r.x)), y)
                } else {
                    self.pixel(x, y)
                },
        )
    }

    /// The image with the whole of `other` laid over it, the top-left corner
    /// of `other` at `(at_x, at_y)`.
    pub open spec fn with_image(self, other: ImageView, at_x: u32, at_y: u32) -> ImageView {
        ImageView::from_fn(
            self.width,
            self.height,
            |x: int, y: int|
                if at_x <= x < at_x + other.width && at_y <= y < at_y + other.height {
                    other.pixel(x - at_x, y - at_y)
                } else {
                    self.pixel(x, y)
                },
        )
    }

    /// Same size as `other`.
    pub open spec fn same_size(self, other: ImageView) -> bool {
        self.width == other.width && self.height == other.height
    }
}

/// Pixels of a well-formed image occupy disjoint, in-range runs of four bytes.
pub proof fn lemma_offset_bounds(v: ImageView, x: int, y: int)
    requires
        v.wf(),
        v.in_bounds(x, y),
    ensures
        0 <= v.offset(x, y),
        v.offset(x, y) + 4 <= v.pixels.len(),
        y * v.width + x < v.width * v.height,
{
    let w = v.width as int;
    let h = v.height as int;
    assert(y * w + x < w * h) by (nonlinear_arith)
        requires
            0 <= x < w,
            0 <= y < h,
    ;
    assert(0 <= y * w) by (nonlinear_arith)
        requires
            0 <= y,
            0 <= w,
    ;
}

/// Distinct pixels have byte runs that do not overlap.
pub proof fn lemma_offset_distinct(v: ImageView, x1: int, y1: int, x2: int, y2: int)
    requires
        v.in_bounds(x1, y1),
        v.in_bounds(x2, y2),
        x1 != x2 || y1 != y2,
    ensures
        v.offset(x1, y1) + 4 <= v.offset(x2, y2) || v.offset(x2, y2) + 4 <= v.offset(x1, y1),
{
    let w = v.width as int;
    if y1 < y2 {
        assert(y1 * w + w <= y2 * w) by (nonlinear_arith)
            requires
                y1 + 1 <= y2,
                0 <= w,
        ;
    } else if y2 < y1 {
        assert(y2 * w + w <= y1 * w) by (nonlinear_arith)
            requires
                y2 + 1 <= y1,
                0 <= w,
        ;
    }
}

/// Writing one pixel changes that pixel and no other.
pub proof fn lemma_with_pixel(v: ImageView, x: int, y: int, p: Rgba)
    requires
        v.wf(),
        v.in_bounds(x, y),
    ensures
        v.with_pixel(x, y, p).wf(),
        v.with_pixel(x, y, p).same_size(v),
        v.with_pixel(x, y, p).pixel(x, y) == p,
        forall|x2: int, y2: int|
            v.in_bounds(x2, y2) && (x2 != x || y2 != y) ==> #[trigger] v.with_pixel(x, y, p).pixel(
                x2,
                y2,
            ) == v.pixel(x2, y2),
{
    lemma_offset_bounds(v, x, y);
    let n = v.with_pixel(x, y, p);
    assert forall|x2: int, y2: int| v.in_bounds(x2, y2) && (x2 != x || y2 != y) implies #[trigger] n.pixel(
        x2,
        y2,
    ) == v.pixel(x2, y2) by {
        lemma_offset_bounds(v, x2, y2);
        lemma_offset_distinct(v, x, y, x2, y2);
    }
}

/// Every byte of a well-formed image belongs to exactly one pixel: byte `i` is
/// channel `i % 4` of the pixel whose coordinates are returned.
pub proof fn lemma_pixel_of_byte(v: ImageView, i: int) -> (at: (int, int))
    requires
        v.wf(),
        0 <= i < v.pixels.len(),
    ensures
        v.in_bounds(at.0, at.1),
        v.offset(at.0, at.1) == i - i % 4,
        at.1 == (i / 4) / (v.width as int),
        at.0 == (i / 4) % (v.width as int),
{
    let w = v.width as int;
    let q = i / 4;
    assert(w > 0) by (nonlinear_arith)
        requires
            0 <= i < w * v.height * 4,
            0 <= w,
    ;
    let y = q / w;
    let x = q % w;
    assert(q == y * w + x && 0 <= x < w) by {
        vstd::arithmetic::div_mod::lemma_fundamental_div_mod(q, w);
        vstd::arithmetic::div_mod::lemma_mod_bound(q, w);
        assert(w * y == y * w) by (nonlinear_arith);
    }
    assert(0 <= y < v.height) by (nonlinear_arith)
        requires
            q == y * w + x,
            0 <= x < w,
            0 <= q,
            q < w * v.height,
    ;
    (x, y)
}

/// The four channels of a pixel, by position.
pub open spec fn channel(p: Rgba, c: int) -> u8 {
    if c == 0 {
        p.r
    } else if c == 1 {
        p.g
    } else if c == 2 {
        p.b
    } else {
        p.a
    }
}

/// Two well-formed images of one size with the same pixels have the same bytes.
pub proof fn lemma_pixels_determine_bytes(a: ImageView, b: ImageView)
    requires
        a.wf(),
        b.wf(),
        a.same_size(b),
        forall|x: int, y: int| a.in_bounds(x, y) ==> #[trigger] a.pixel(x, y) == b.pixel(x, y),
    ensures
        a == b,
{
    assert forall|i: int| 0 <= i < a.pixels.len() implies a.pixels[i] == b.pixels[i] by {
        let (x, y) = lemma_pixel_of_byte(a, i);
        assert(a.pixel(x, y) == b.pixel(x, y));
        assert(b.offset(x, y) == a.offset(x, y));
        assert(a.pixels[i] == channel(a.pixel(x, y), i % 4));
        assert(b.pixels[i] == channel(b.pixel(x, y), i % 4));
    }
    assert(a.pixels =~= b.pixels);
}

/// Mapping a function over an image applies it to each pixel, and an image
/// whose pixels are those of the mapped image is the mapped image.
pub proof fn lemma_mapped(v: ImageView, f: spec_fn(Rgba) -> Rgba)
    requires
        v.wf(),
    ensures
        v.mapped(f).wf(),
        v.mapped(f).same_size(v),
        forall|x: int, y: int| v.in_bounds(x, y) ==> #[trigger] v.mapped(f).pixel(x, y) == f(v.pixel(x, y)),
        forall|w: ImageView|
            w.wf() && w.same_size(v) && (forall|x: int, y: int|
                v.in_bounds(x, y) ==> #[trigger] w.pixel(x, y) == f(v.pixel(x, y))) ==> w == v.mapped(f),
{
    let m = v.mapped(f);
    assert forall|x: int, y: int| v.in_bounds(x, y) implies #[trigger] m.pixel(x, y) == f(v.pixel(x, y)) by {
        lemma_offset_bounds(v, x, y);
        let o = v.offset(x, y);
        assert(o % 4 == 0 && (o + 1) % 4 == 1 && (o + 2) % 4 == 2 && (o + 3) % 4 == 3);
        assert(v.pixel_of_byte(o) == v.pixel(x, y));
        assert(v.pixel_of_byte(o + 1) == v.pixel(x, y));
        assert(v.pixel_of_byte(o + 2) == v.pixel(x, y));
        assert(v.pixel_of_byte(o + 3) == v.pixel(x, y));
    }
    assert forall|w: ImageView|
        w.wf() && w.same_size(v) && (forall|x: int, y: int|
            v.in_bounds(x, y) ==> #[trigger] w.pixel(x, y) == f(v.pixel(x, y))) implies w == m by {
        assert forall|x: int, y: int| w.in_bounds(x, y) implies #[trigger] w.pixel(x, y) == m.pixel(x, y) by {
            assert(m.pixel(x, y) == f(v.pixel(x, y)));
        }
        lemma_pixels_determine_bytes(w, m);
    }
}

/// An image given pixel by pixel shows those pixels, and a well-formed image
/// of the same size that shows them is that image.
pub proof fn lemma_from_fn(width: nat, height: nat, f: spec_fn(int, int) -> Rgba)
    ensures
        ImageView::from_fn(width, height, f).wf(),
        forall|x: int, y: int|
            0 <= x < width && 0 <= y < height ==> #[trigger] ImageView::from_fn(width, height, f).pixel(x, y)
                == f(x, y),
        forall|v: ImageView|
            v.wf() && v.width == width && v.height == height && (forall|x: int, y: int|
                v.in_bounds(x, y) ==> #[trigger] v.pixel(x, y) == f(x, y)) ==> v == ImageView::from_fn(
                width,
                height,
                f,
            ),
{
    let m = ImageView::from_fn(width, height, f);
    let w = width as int;
    assert forall|x: int, y: int| 0 <= x < width && 0 <= y < height implies #[trigger] m.pixel(x, y) == f(
        x,
        y,
    ) by {
        lemma_offset_bounds(m, x, y);
        let q = y * w + x;
        vstd::arithmetic::div_mod::lemma_fundamental_div_mod_converse(q, w, y, x);
        let o = m.offset(x, y);
        assert(o == q * 4);
        assert(o / 4 == q && (o + 1) / 4 == q && (o + 2) / 4 == q && (o + 3) / 4 == q);
        assert(o % 4 == 0 && (o + 1) % 4 == 1 && (o + 2) % 4 == 2 && (o + 3) % 4 == 3);
    }
    assert forall|v: ImageView|
        v.wf() && v.width == width && v.height == height && (forall|x: int, y: int|
            v.in_bounds(x, y) ==> #[trigger] v.pixel(x, y) == f(x, y)) implies v == m by {
        assert forall|x: int, y: int| v.in_bounds(x, y) implies #[trigger] v.pixel(x, y) == m.pixel(x, y) by {
            assert(m.pixel(x, y) == f(x, y));
        }
        lemma_pixels_determine_bytes(v, m);
    }
}

/// Position of cell `(i, j)` in a row-major buffer of rows `w` wide.
pub open spec fn cell(w: int, i: int, j: int) -> int {
    j * w + i
}

/// Column `i` of a row `w` wide, counted from the right when `mirror` is set.
pub open spec fn column(w: int, i: int, mirror: bool) -> int {
    if mirror {
        w - 1 - i
    } else {
        i
    }
}

/// Rectangle `r` moved so that its top-left corner is `(x, y)`.
pub open spec fn moved(r: Rect, x: u32, y: u32) -> Rect {
    Rect { x, y, width: r.width, height: r.height }
}

proof fn lemma_cell_bounds(w: int, h: int, i: int, j: int)
    requires
        0 <= i < w,
        0 <= j < h,
    ensures
        0 <= cell(w, i, j) < w * h,
        0 <= j * w,
{
    assert(0 <= j * w + i < w * h && 0 <= j * w) by (nonlinear_arith)
        requires
            0 <= i < w,
            0 <= j < h,
    ;
}

proof fn lemma_cell_order(w: int, i1: int, j1: int, i2: int, j2: int)
    requires
        0 <= i1 < w,
        0 <= i2 <= w,
        0 <= j1,
        j1 < j2 || (j1 == j2 && i1 < i2),
    ensures
        0 <= cell(w, i1, j1) < cell(w, i2, j2),
{
    assert(0 <= j1 * w + i1 < j2 * w + i2) by (nonlinear_arith)
        requires
            0 <= i1 < w,
            0 <= i2 <= w,
            0 <= j1,
            j1 < j2 || (j1 == j2 && i1 < i2),
    ;
}

/// An owned raster of RGBA pixels. Every constructor yields a raster whose view
/// is well formed, and every method keeps it so.
pub struct Image {
    width: u32,
    height: u32,
    pixels: Vec<u8>,
}

impl View for Image {
    type V = ImageView;

    closed spec fn view(&self) -> ImageView {
        ImageView { width: self.width as nat, height: self.height as nat, pixels: self.pixels@ }
    }
}

impl Clone for Image {
    fn clone(&self) -> (copy: Self)
        ensures
            copy@ == self@,
    {
        let pixels = self.pixels.clone();
        assert(pixels@ =~= self.pixels@);
        Image { width: self.width, height: self.height, pixels }
    }
}

impl Image {
    /// The largest buffer, in bytes, that a raster may own.
    pub open spec fn max_bytes() -> int {
        isize::MAX as int
    }

    /// The sides of a raster fit 32 bits and its buffer fits the address space.
    pub proof fn lemma_view_bounds(self)
        ensures
            self@.width <= u32::MAX,
            self@.height <= u32::MAX,
            self@.pixels.len() <= usize::MAX,
    {
        assert(self.pixels@.len() == self.pixels.len());
    }

    /// Whether a raster of this size can be allocated.
    pub fn can_hold(width: u32, height: u32) -> (b: bool)
        ensures
            b <==> width * height * 4 <= Self::max_bytes(),
    {
        byte_len(width, height).is_some()
    }

    /// A transparent black raster, or `None` when the buffer would not fit in memory.
    pub fn new(width: u32, height: u32) -> (r: Option<Image>)
        ensures
            r is Some <==> width * height * 4 <= Self::max_bytes(),
            r matches Some(img) ==> img@.width == width && img@.height == height && img@.wf()
                && (forall|i: int| 0 <= i < img@.pixels.len() ==> img@.pixels[i] == 0)
                && (forall|x: int, y: int|
                img@.in_bounds(x, y) ==> #[trigger] img@.pixel(x, y) == transparent()),
    {
        let n = byte_len(width, height);
        match n {
            Some(n) => {
                let pixels: Vec<u8> = vec![0u8; n];
                let img = Image { width, height, pixels };
                proof {
                    assert forall|x: int, y: int| img@.in_bounds(x, y) implies #[trigger] img@.pixel(
                        x,
                        y,
                    ) == transparent() by {
                        lemma_offset_bounds(img@, x, y);
                    }
                }
                Some(img)
            },
            None => None,
        }
    }

    /// Takes ownership of a row-major RGBA buffer; `None` unless its length is
    /// exactly `width * height * 4`.
    pub fn from_raw(width: u32, height: u32, pixels: Vec<u8>) -> (r: Option<Image>)
        ensures
            r is Some <==> pixels@.len() == width * height * 4,
            r matches Some(img) ==> img@ == (ImageView {
                width: width as nat,
                height: height as nat,
                pixels: pixels@,
            }) && img@.wf(),
    {
        let total = byte_total(width, height);
        if pixels.len() as u128 == total {
            Some(Image { width, height, pixels })
        } else {
            None
        }
    }

    pub fn width(&self) -> (w: u32)
        ensures
            w == self@.width,
    {
        self.width
    }

    pub fn height(&self) -> (h: u32)
        ensures
            h == self@.height,
    {
        self.height
    }

    /// The bytes, row by row.
    pub fn as_raw(&self) -> (bytes: &Vec<u8>)
        ensures
            bytes@ == self@.pixels,
    {
        &self.pixels
    }

    /// Gives the buffer back.
    pub fn into_raw(self) -> (bytes: Vec<u8>)
        ensures
            bytes@ == self@.pixels,
    {
        self.pixels
    }

    /// Reads the pixel at `(x, y)`.
    pub fn get_pixel(&self, x: u32, y: u32) -> (p: Rgba)
        requires
            self@.wf(),
            self@.in_bounds(x as int, y as int),
        ensures
            p == self@.pixel(x as int, y as int),
    {
        proof {
            lemma_offset_bounds(self@, x as int, y as int);
        }
        let o = self.index_of(x, y);
        Rgba { r: self.pixels[o], g: self.pixels[o + 1], b: self.pixels[o + 2], a: self.pixels[o + 3] }
    }

    /// Writes the pixel at `(x, y)`.
    pub fn put_pixel(&mut self, x: u32, y: u32, p: Rgba)
        requires
            old(self)@.wf(),
            old(self)@.in_bounds(x as int, y as int),
        ensures
            final(self)@ == old(self)@.with_pixel(x as int, y as int, p),
            final(self)@.wf(),
    {
        proof {
            lemma_offset_bounds(self@, x as int, y as int);
        }
        let o = self.index_of(x, y);
        self.pixels.set(o, p.r);
        self.pixels.set(o + 1, p.g);
        self.pixels.set(o + 2, p.b);
        self.pixels.set(o + 3, p.a);
    }

    /// The pixels of rectangle `r`, row by row.
    fn snapshot(&self, r: Rect) -> (buf: Vec<Rgba>)
        requires
            self@.wf(),
            self@.holds(r),
        ensures
            buf@.len() == r.width * r.height,
            forall|i: int, j: int|
                0 <= i < r.width && 0 <= j < r.height ==> #[trigger] buf@[cell(r.width as int, i, j)]
                    == self@.pixel(r.x + i, r.y + j),
    {
        let mut buf: Vec<Rgba> = Vec::new();
        let mut j: u32 = 0;
        while j < r.height
            invariant
                self@.wf(),
                self@.holds(r),
                j <= r.height,
                buf@.len() == cell(r.width as int, 0, j as int),
                forall|i2: int, j2: int|
                    0 <= i2 < r.width && 0 <= j2 < j ==> #[trigger] buf@[cell(r.width as int, i2, j2)]
                        == self@.pixel(r.x + i2, r.y + j2),
            decreases r.height - j,
        {
            let mut i: u32 = 0;
            while i < r.width
                invariant
                    self@.wf(),
                    self@.holds(r),
                    j < r.height,
                    i <= r.width,
                    buf@.len() == cell(r.width as int, i as int, j as int),
                    forall|i2: int, j2: int|
                        0 <= i2 < r.width && 0 <= j2 < r.height && (j2 < j || (j2 == j && i2 < i))
                            ==> #[trigger] buf@[cell(r.width as int, i2, j2)] == self@.pixel(
                            r.x + i2,
                            r.y + j2,
                        ),
                decreases r.width - i,
            {
                proof {
                    self.lemma_view_bounds();
                }
                let p = self.get_pixel(r.x + i, r.y + j);
                proof {
                    assert forall|i2: int, j2: int|
                        0 <= i2 < r.width && 0 <= j2 < r.height && (j2 < j || (j2 == j && i2 < i))
                        implies 0 <= #[trigger] cell(r.width as int, i2, j2) < cell(
                        r.width as int,
                        i as int,
                        j as int,
                    ) by {
                        lemma_cell_order(r.width as int, i2, j2, i as int, j as int);
                    }
                }
                buf.push(p);
                i += 1;
            }
            proof {
                assert(cell(r.width as int, r.width as int, j as int) == cell(
                    r.width as int,
                    0,
                    j + 1,
                )) by (nonlinear_arith);
            }
            j += 1;
        }
        proof {
            assert(cell(r.width as int, 0, r.height as int) == r.width * r.height) by (nonlinear_arith);
        }
        buf
    }

    /// Overwrites rectangle `r` with the pixels of `buf` (row by row, of the
    /// rectangle's size), read right to left when `mirror` is set.
    fn paste(&mut self, r: Rect, buf: &Vec<Rgba>, mirror: bool)
        requires
            old(self)@.wf(),
            old(self)@.holds(r),
            buf@.len() == r.width * r.height,
        ensures
            final(self)@.wf(),
            final(self)@.same_size(old(self)@),
            forall|x: int, y: int|
                old(self)@.in_bounds(x, y) ==> #[trigger] final(self)@.pixel(x, y) == (if r.contains(
                    x,
                    y,
                ) {
                    buf@[cell(r.width as int, column(r.width as int, x - r.x, mirror), y - r.y)]
                } else {
                    old(self)@.pixel(x, y)
                }),
    {
        let ghost before = self@;
        let mut j: u32 = 0;
        while j < r.height
            invariant
                before.wf(),
                before.holds(r),
                buf@.len() == r.width * r.height,
                self@.wf(),
                self@.same_size(before),
                j <= r.height,
                forall|x: int, y: int|
                    before.in_bounds(x, y) ==> #[trigger] self@.pixel(x, y) == (if r.contains(x, y)
                        && y - r.y < j {
                        buf@[cell(r.width as int, column(r.width as int, x - r.x, mirror), y - r.y)]
                    } else {
                        before.pixel(x, y)
                    }),
            decreases r.height - j,
        {
            let mut i: u32 = 0;
            while i < r.width
                invariant
                    before.wf(),
                    before.holds(r),
                    buf@.len() == r.width * r.height,
                    self@.wf(),
                    self@.same_size(before),
                    j < r.height,
                    i <= r.width,
                    forall|x: int, y: int|
                        before.in_bounds(x, y) ==> #[trigger] self@.pixel(x, y) == (if r.contains(x, y)
                            && (y - r.y < j || (y - r.y == j && x - r.x < i)) {
                            buf@[cell(r.width as int, column(r.width as int, x - r.x, mirror), y - r.y)]
                        } else {
                            before.pixel(x, y)
                        }),
                decreases r.width - i,
            {
                let from: u32 = if mirror {
                    r.width - 1 - i
                } else {
                    i
                };
                proof {
                    self.lemma_view_bounds();
                    lemma_cell_bounds(r.width as int, r.height as int, from as int, j as int);
                    assert(buf@.len() == buf.len());
                }
                let at: usize = j as usize * r.width as usize + from as usize;
                let p = buf[at];
                let ghost mid = self@;
                self.put_pixel(r.x + i, r.y + j, p);
                proof {
                    lemma_with_pixel(mid, r.x + i, r.y + j, p);
                }
                i += 1;
            }
            j += 1;
        }
    }

    /// Copies rectangle `src` so that its top-left corner lands on `(to_x, to_y)`,
    /// as if the source were read in full before anything is written: the two
    /// rectangles may overlap. Returns `false`, changing nothing, when either
    /// rectangle leaves the raster.
    pub fn copy_within(&mut self, src: Rect, to_x: u32, to_y: u32) -> (done: bool)
        requires
            old(self)@.wf(),
        ensures
            final(self)@.wf(),
            final(self)@.same_size(old(self)@),
            done <==> old(self)@.holds(src) && old(self)@.holds(moved(src, to_x, to_y)),
            !done ==> final(self)@ == old(self)@,
            done ==> final(self)@ == old(self)@.copied_within(src, to_x, to_y),
            done ==> forall|x: int, y: int|
                old(self)@.in_bounds(x, y) ==> #[trigger] final(self)@.pixel(x, y) == (if moved(
                    src,
                    to_x,
                    to_y,
                ).contains(x, y) {
                    old(self)@.pixel(x - to_x + src.x, y - to_y + src.y)
                } else {
                    old(self)@.pixel(x, y)
                }),
    {
        if !self.fits(src) || !self.fits(Rect { x: to_x, y: to_y, width: src.width, height: src.height }) {
            return false;
        }
        let ghost before = self@;
        let buf = self.snapshot(src);
        self.paste(Rect { x: to_x, y: to_y, width: src.width, height: src.height }, &buf, false);
        proof {
            lemma_from_fn(
                before.width,
                before.height,
                |x: int, y: int|
                    if moved(src, to_x, to_y).contains(x, y) {
                        before.pixel(x - to_x + src.x, y - to_y + src.y)
                    } else {
                        before.pixel(x, y)
                    },
            );
        }
        true
    }

    /// Mirrors rectangle `r` left to right, in place.
    pub fn flip_horizontal_in_place(&mut self, r: Rect)
        requires
            old(self)@.wf(),
            old(self)@.holds(r),
        ensures
            final(self)@ == old(self)@.flipped(r),
            final(self)@.wf(),
            final(self)@.same_size(old(self)@),
            forall|x: int, y: int|
                old(self)@.in_bounds(x, y) ==> #[trigger] final(self)@.pixel(x, y) == (if r.contains(
                    x,
                    y,
                ) {
                    old(self)@.pixel(r.x + (r.width - 1 - (x - r.x)), y)
                } else {
                    old(self)@.pixel(x, y)
                }),
    {
        let ghost before = self@;
        let buf = self.snapshot(r);
        self.paste(r, &buf, true);
        proof {
            lemma_from_fn(
                before.width,
                before.height,
                |x: int, y: int|
                    if r.contains(x, y) {
                        before.pixel(r.x + (r.width - 1 - (x - r.x)), y)
                    } else {
                        before.pixel(x, y)
                    },
            );
        }
    }

    /// Copies the whole of `other` into this raster with its top-left corner at
    /// `(x, y)`. Returns `false`, changing nothing, when it does not fit.
    pub fn copy_from(&mut self, other: &Image, x: u32, y: u32) -> (done: bool)
        requires
            old(self)@.wf(),
            other@.wf(),
        ensures
            final(self)@.wf(),
            final(self)@.same_size(old(self)@),
            done <==> x + other@.width <= old(self)@.width && y + other@.height <= old(self)@.height,
            !done ==> final(self)@ == old(self)@,
            done ==> final(self)@ == old(self)@.with_image(other@, x, y),
            done ==> forall|px: int, py: int|
                old(self)@.in_bounds(px, py) ==> #[trigger] final(self)@.pixel(px, py) == (if x <= px < x
                    + other@.width && y <= py < y + other@.height {
                    other@.pixel(px - x, py - y)
                } else {
                    old(self)@.pixel(px, py)
                }),
    {
        let r = Rect { x, y, width: other.width, height: other.height };
        if !self.fits(r) {
            return false;
        }
        let ghost before = self@;
        let buf = other.snapshot(Rect { x: 0, y: 0, width: other.width, height: other.height });
        self.paste(r, &buf, false);
        proof {
            lemma_from_fn(
                before.width,
                before.height,
                |px: int, py: int|
                    if x <= px < x + other@.width && y <= py < y + other@.height {
                        other@.pixel(px - x, py - y)
                    } else {
                        before.pixel(px, py)
                    },
            );
        }
        true
    }

    /// A new raster holding the pixels of rectangle `r`.
    pub fn crop(&self, r: Rect) -> (out: Image)
        requires
            self@.wf(),
            self@.holds(r),
        ensures
            out@ == self@.cropped(r),
            out@.wf(),
            forall|x: int, y: int|
                out@.in_bounds(x, y) ==> #[trigger] out@.pixel(x, y) == self@.pixel(r.x + x, r.y + y),
    {
        let buf = self.snapshot(r);
        let mut pixels: Vec<u8> = Vec::new();
        let mut k: usize = 0;
        while k < buf.len()
            invariant
                k <= buf@.len(),
                pixels@.len() == 4 * k,
                forall|q: int|
                    0 <= q < k ==> pixels@[4 * q] == (#[trigger] buf@[q]).r && pixels@[4 * q + 1]
                        == buf@[q].g && pixels@[4 * q + 2] == buf@[q].b && pixels@[4 * q + 3]
                        == buf@[q].a,
            decreases buf@.len() - k,
        {
            let p = buf[k];
            pixels.push(p.r);
            pixels.push(p.g);
            pixels.push(p.b);
            pixels.push(p.a);
            k += 1;
        }
        let out = Image { width: r.width, height: r.height, pixels };
        proof {
            assert(out@.wf()) by (nonlinear_arith)
                requires
                    out@.pixels.len() == 4 * (r.width * r.height),
                    out@.width == r.width,
                    out@.height == r.height,
            ;
            assert forall|x: int, y: int| out@.in_bounds(x, y) implies #[trigger] out@.pixel(x, y)
                == self@.pixel(r.x + x, r.y + y) by {
                lemma_cell_bounds(r.width as int, r.height as int, x, y);
                assert(buf@[cell(r.width as int, x, y)] == self@.pixel(r.x + x, r.y + y));
                assert(out@.offset(x, y) == 4 * cell(r.width as int, x, y));
            }
            lemma_from_fn(r.width as nat, r.height as nat, |x: int, y: int| self@.pixel(r.x + x, r.y + y));
        }
        out
    }

    /// Whether rectangle `r` lies wholly inside the raster.
    pub fn fits(&self, r: Rect) -> (b: bool)
        ensures
            b == self@.holds(r),
    {
        r.width <= self.width && r.x <= self.width - r.width && r.height <= self.height && r.y
            <= self.height - r.height
    }

    fn index_of(&self, x: u32, y: u32) -> (o: usize)
        requires
            self@.wf(),
            self@.in_bounds(x as int, y as int),
        ensures
            o == self@.offset(x as int, y as int),
            o + 4 <= self.pixels@.len(),
    {
        proof {
            lemma_offset_bounds(self@, x as int, y as int);
            assert(0 <= y * self.width <= y * self.width + x) by (nonlinear_arith)
                requires
                    0 <= y,
                    0 <= x,
                    0 <= self.width,
            ;
            assert(self.pixels@.len() == self.pixels.len());
        }
        (y as usize * self.width as usize + x as usize) * 4
    }
}

/// `width * height * 4` as a buffer length, when a buffer of that size can exist.
fn byte_len(width: u32, height: u32) -> (r: Option<usize>)
    ensures
        r is Some <==> width * height * 4 <= Image::max_bytes(),
        r matches Some(n) ==> n == width * height * 4,
{
    let total = byte_total(width, height);
    if total <= isize::MAX as u128 {
        Some(total as usize)
    } else {
        None
    }
}

/// `width * height * 4`, computed wide enough never to overflow.
fn byte_total(width: u32, height: u32) -> (total: u128)
    ensures
        total == width * height * 4,
{
    assert(0 <= width * height <= 0xffff_ffff * 0xffff_ffff) by (nonlinear_arith)
        requires
            0 <= width <= 0xffff_ffff,
            0 <= height <= 0xffff_ffff,
    ;
    (width as u128) * (height as u128) * 4
}

} // verus!
