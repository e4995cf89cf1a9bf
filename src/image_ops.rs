//! Pixel-format conversions between raw bytes, RGB and RGBA images, and
//! scaling to a target size. Images are held in the `image` crate's
//! buffers; what the conversions read and write is their samples, row by
//! row, three per pixel for RGB and four for RGBA.

use vstd::prelude::*;

verus! {

#[verifier::external_type_specification]
#[verifier::reject_recursive_types(T)]
pub struct ExRgb<T>(image::Rgb<T>);

/// An RGB image with 8-bit channels.
#[verifier::external_body]
pub struct RgbBuffer {
    img: image::RgbImage,
}

/// An RGBA image with 8-bit channels.
#[verifier::external_body]
pub struct RgbaBuffer {
    img: image::RgbaImage,
}

/// Width and height of an RGB image.
pub uninterp spec fn rgb_dims(b: RgbBuffer) -> (u32, u32);

/// The samples of an RGB image.
pub uninterp spec fn rgb_samples(b: RgbBuffer) -> Seq<u8>;

/// Width and height of an RGBA image.
pub uninterp spec fn rgba_dims(b: RgbaBuffer) -> (u32, u32);

/// The samples of an RGBA image.
pub uninterp spec fn rgba_samples(b: RgbaBuffer) -> Seq<u8>;

/// Number of pixels of an image of the given size.
pub open spec fn pixel_count(dims: (u32, u32)) -> int {
    dims.0 as int * dims.1 as int
}

/// Relies on `ImageBuffer::from_raw`: it takes the buffer as it is when
/// three samples per pixel of a row fit in `usize` and the buffer holds at
/// least three samples per pixel, and refuses it otherwise.
#[verifier::external_body]
fn rgb_from_raw(width: u32, height: u32, buf: Vec<u8>) -> (r: Option<RgbBuffer>)
    ensures
        r is Some <==> (3 * width as int <= usize::MAX && 3 * pixel_count((width, height))
            <= buf@.len()),
        r is Some ==> rgb_dims(r->0) == (width, height) && rgb_samples(r->0) == buf@,
{
    image::RgbImage::from_raw(width, height, buf).map(|img| RgbBuffer { img })
}

/// Relies on `ImageBuffer::from_raw`: it takes the buffer as it is when
/// four samples per pixel of a row fit in `usize` and the buffer holds at
/// least four samples per pixel, and refuses it otherwise.
#[verifier::external_body]
fn rgba_from_raw(width: u32, height: u32, buf: Vec<u8>) -> (r: Option<RgbaBuffer>)
    ensures
        r is Some <==> (4 * width as int <= usize::MAX && 4 * pixel_count((width, height))
            <= buf@.len()),
        r is Some ==> rgba_dims(r->0) == (width, height) && rgba_samples(r->0) == buf@,
{
    image::RgbaImage::from_raw(width, height, buf).map(|img| RgbaBuffer { img })
}

/// Relies on `ImageBuffer::dimensions`: every constructor of the buffer
/// checks that three samples per pixel of a row fit in `usize`.
#[verifier::external_body]
fn rgb_dimensions(b: &RgbBuffer) -> (r: (u32, u32))
    ensures
        r == rgb_dims(*b),
        3 * r.0 as int <= usize::MAX,
{
    b.img.dimensions()
}

/// Relies on `ImageBuffer::dimensions`: every constructor of the buffer
/// checks that four samples per pixel of a row fit in `usize`.
#[verifier::external_body]
fn rgba_dimensions(b: &RgbaBuffer) -> (r: (u32, u32))
    ensures
        r == rgba_dims(*b),
        4 * r.0 as int <= usize::MAX,
{
    b.img.dimensions()
}

/// Relies on `ImageBuffer::as_raw`: the samples, of which every
/// constructor of the buffer makes at least three per pixel.
#[verifier::external_body]
fn rgb_as_raw(b: &RgbBuffer) -> (r: &Vec<u8>)
    ensures
        r@ == rgb_samples(*b),
        r@.len() >= 3 * pixel_count(rgb_dims(*b)),
{
    b.img.as_raw()
}

/// Relies on `ImageBuffer::as_raw`: the samples, of which every
/// constructor of the buffer makes at least four per pixel.
#[verifier::external_body]
fn rgba_as_raw(b: &RgbaBuffer) -> (r: &Vec<u8>)
    ensures
        r@ == rgba_samples(*b),
        r@.len() >= 4 * pixel_count(rgba_dims(*b)),
{
    b.img.as_raw()
}

/// Relies on `ImageBuffer::into_raw`: the samples.
#[verifier::external_body]
fn rgb_into_raw(b: RgbBuffer) -> (r: Vec<u8>)
    ensures
        r@ == rgb_samples(b),
{
    b.img.into_raw()
}

/// Relies on `ImageBuffer::into_raw`: the samples.
#[verifier::external_body]
fn rgba_into_raw(b: RgbaBuffer) -> (r: Vec<u8>)
    ensures
        r@ == rgba_samples(b),
{
    b.img.into_raw()
}

/// Relies on `ImageBuffer`'s `Clone`: the same size and samples.
#[verifier::external_body]
fn rgb_clone(b: &RgbBuffer) -> (r: RgbBuffer)
    ensures
        rgb_dims(r) == rgb_dims(*b),
        rgb_samples(r) == rgb_samples(*b),
{
    RgbBuffer { img: b.img.clone() }
}

/// Relies on `image::imageops::resize` with the Lanczos3 filter: the result
/// has the requested size. It allocates an RGB buffer of the target size and
/// a four-channel buffer of the source width by the target height, and
/// panics where either length, or the length of one row of either,
/// overflows.
#[verifier::external_body]
fn resize_lanczos3(src: &RgbBuffer, width: u32, height: u32) -> (r: RgbBuffer)
    requires
        3 * width as int <= usize::MAX,
        3 * pixel_count((width, height)) <= usize::MAX,
        4 * rgb_dims(*src).0 as int <= usize::MAX,
        4 * pixel_count((rgb_dims(*src).0, height)) <= usize::MAX,
    ensures
        rgb_dims(r) == (width, height),
{
    let img = image::imageops::resize(&src.img, width, height, image::imageops::FilterType::Lanczos3);
    RgbBuffer { img }
}

/// Index of the first sample of pixel (x, y) in a row-by-row layout.
pub open spec fn pixel_index(dims: (u32, u32), x: u32, y: u32) -> int {
    y as int * dims.0 as int + x as int
}

proof fn lemma_pixel_index_in_bounds(dims: (u32, u32), x: u32, y: u32)
    requires
        x < dims.0,
        y < dims.1,
    ensures
        0 <= pixel_index(dims, x, y) < pixel_count(dims),
{
    assert((y as int) * (dims.0 as int) + (x as int) < (dims.0 as int) * (dims.1 as int))
        by (nonlinear_arith)
        requires
            x < dims.0,
            y < dims.1,
    ;
    assert((y as int) * (dims.0 as int) >= 0) by (nonlinear_arith);
}

impl RgbBuffer {
    /// An RGB image of the given size over `samples`, three per pixel row by
    /// row; `None` where `samples` holds fewer than that.
    pub fn from_samples(width: u32, height: u32, samples: Vec<u8>) -> (r: Option<RgbBuffer>)
        ensures
            r is Some <==> (3 * width as int <= usize::MAX && 3 * pixel_count((width, height))
                <= samples@.len()),
            r is Some ==> rgb_dims(r->0) == (width, height) && rgb_samples(r->0) == samples@,
    {
        rgb_from_raw(width, height, samples)
    }

    /// Width and height.
    pub fn dimensions(&self) -> (r: (u32, u32))
        ensures
            r == rgb_dims(*self),
    {
        rgb_dimensions(self)
    }

    /// The pixel at column `x` of row `y`.
    pub fn pixel(&self, x: u32, y: u32) -> (r: image::Rgb<u8>)
        requires
            x < rgb_dims(*self).0,
            y < rgb_dims(*self).1,
        ensures
            ({
                let i = 3 * pixel_index(rgb_dims(*self), x, y);
                let s = rgb_samples(*self);
                r == image::Rgb([s[i], s[i + 1], s[i + 2]])
            }),
    {
        let (width, height) = rgb_dimensions(self);
        let s = rgb_as_raw(self);
        let len = s.len();
        proof {
            lemma_pixel_index_in_bounds((width, height), x, y);
            assert(3 * pixel_index((width, height), x, y) + 3 <= len);
        }
        let i = 3 * (y as usize * width as usize + x as usize);
        image::Rgb([s[i], s[i + 1], s[i + 2]])
    }

    /// The samples, three per pixel row by row.
    pub fn into_samples(self) -> (r: Vec<u8>)
        ensures
            r@ == rgb_samples(self),
    {
        rgb_into_raw(self)
    }
}

impl RgbaBuffer {
    /// An RGBA image of the given size over `samples`, four per pixel row by
    /// row; `None` where `samples` holds fewer than that.
    pub fn from_samples(width: u32, height: u32, samples: Vec<u8>) -> (r: Option<RgbaBuffer>)
        ensures
            r is Some <==> (4 * width as int <= usize::MAX && 4 * pixel_count((width, height))
                <= samples@.len()),
            r is Some ==> rgba_dims(r->0) == (width, height) && rgba_samples(r->0) == samples@,
    {
        rgba_from_raw(width, height, samples)
    }

    /// Width and height.
    pub fn dimensions(&self) -> (r: (u32, u32))
        ensures
            r == rgba_dims(*self),
    {
        rgba_dimensions(self)
    }

    /// The pixel at column `x` of row `y`.
    pub fn pixel(&self, x: u32, y: u32) -> (r: image::Rgba<u8>)
        requires
            x < rgba_dims(*self).0,
            y < rgba_dims(*self).1,
        ensures
            ({
                let i = 4 * pixel_index(rgba_dims(*self), x, y);
                let s = rgba_samples(*self);
                r == image::Rgba([s[i], s[i + 1], s[i + 2], s[i + 3]])
            }),
    {
        let (width, height) = rgba_dimensions(self);
        let s = rgba_as_raw(self);
        let len = s.len();
        proof {
            lemma_pixel_index_in_bounds((width, height), x, y);
            assert(4 * pixel_index((width, height), x, y) + 4 <= len);
        }
        let i = 4 * (y as usize * width as usize + x as usize);
        image::Rgba([s[i], s[i + 1], s[i + 2], s[i + 3]])
    }

    /// The samples, four per pixel row by row.
    pub fn into_samples(self) -> (r: Vec<u8>)
        ensures
            r@ == rgba_samples(self),
    {
        rgba_into_raw(self)
    }
}

/// RGB samples for `n` pixels read from raw bytes, three per pixel; a
/// pixel whose three bytes are not all there is black.
pub open spec fn rgb_from_bytes(n: int, data: Seq<u8>) -> Seq<u8> {
    Seq::new(
        (3 * n) as nat,
        |k: int|
            if (k / 3) * 3 + 2 < data.len() {
                data[k]
            } else {
                0u8
            },
    )
}

/// RGBA samples for `n` pixels read from raw RGB bytes, three per pixel,
/// fully opaque; a pixel whose three bytes are not all there is black.
pub open spec fn rgba_from_bytes(n: int, data: Seq<u8>) -> Seq<u8> {
    Seq::new(
        (4 * n) as nat,
        |k: int|
            if k % 4 == 3 {
                255u8
            } else if (k / 4) * 3 + 2 < data.len() {
                data[(k / 4) * 3 + k % 4]
            } else {
                0u8
            },
    )
}

/// Convert raw RGB bytes, three per pixel row by row, to an RGB image of
/// the given size. A pixel whose bytes lie past the end of `data` is black.
pub fn bytes_to_rgb(width: u32, height: u32, data: &[u8]) -> (r: RgbBuffer)
    requires
        3 * width as int <= usize::MAX,
        3 * pixel_count((width, height)) <= usize::MAX,
    ensures
        rgb_dims(r) == (width, height),
        rgb_samples(r) == rgb_from_bytes(pixel_count((width, height)), data@),
{
    proof {
        assert(width as int * height as int <= 3 * pixel_count((width, height))) by (nonlinear_arith);
    }
    let n = width as usize * height as usize;
    let ghost f = |k: int|
        if (k / 3) * 3 + 2 < data@.len() {
            data@[k]
        } else {
            0u8
        };
    let mut out: Vec<u8> = Vec::new();
    let mut p: usize = 0;
    while p < n
        invariant
            n == pixel_count((width, height)),
            3 * n <= usize::MAX,
            p <= n,
            out@ =~= Seq::new((3 * p) as nat, f),
            f == (|k: int|
                if (k / 3) * 3 + 2 < data@.len() {
                    data@[k]
                } else {
                    0u8
                }),
        decreases n - p,
    {
        let idx = 3 * p;
        if idx + 2 < data.len() {
            out.push(data[idx]);
            out.push(data[idx + 1]);
            out.push(data[idx + 2]);
        } else {
            out.push(0);
            out.push(0);
            out.push(0);
        }
        assert((3 * p + 0) / 3 == p && (3 * p + 1) / 3 == p && (3 * p + 2) / 3 == p);
        p += 1;
        assert(out@ =~= Seq::new((3 * p) as nat, f));
    }
    let r = rgb_from_raw(width, height, out);
    r.unwrap()
}

/// Convert raw RGB bytes, three per pixel row by row, to a fully opaque
/// RGBA image of the given size. A pixel whose bytes lie past the end of
/// `data` is opaque black.
pub fn bytes_to_rgba(width: u32, height: u32, data: &[u8]) -> (r: RgbaBuffer)
    requires
        4 * width as int <= usize::MAX,
        4 * pixel_count((width, height)) <= usize::MAX,
    ensures
        rgba_dims(r) == (width, height),
        rgba_samples(r) == rgba_from_bytes(pixel_count((width, height)), data@),
{
    proof {
        assert(width as int * height as int <= 4 * pixel_count((width, height))) by (nonlinear_arith);
    }
    let n = width as usize * height as usize;
    let ghost f = |k: int|
        if k % 4 == 3 {
            255u8
        } else if (k / 4) * 3 + 2 < data@.len() {
            data@[(k / 4) * 3 + k % 4]
        } else {
            0u8
        };
    let mut out: Vec<u8> = Vec::new();
    let mut p: usize = 0;
    while p < n
        invariant
            n == pixel_count((width, height)),
            4 * n <= usize::MAX,
            p <= n,
            out@ =~= Seq::new((4 * p) as nat, f),
            f == (|k: int|
                if k % 4 == 3 {
                    255u8
                } else if (k / 4) * 3 + 2 < data@.len() {
                    data@[(k / 4) * 3 + k % 4]
                } else {
                    0u8
                }),
        decreases n - p,
    {
        let idx = 3 * p;
        if idx + 2 < data.len() {
            out.push(data[idx]);
            out.push(data[idx + 1]);
            out.push(data[idx + 2]);
        } else {
            out.push(0);
            out.push(0);
            out.push(0);
        }
        out.push(255);
        assert((4 * p + 0) / 4 == p && (4 * p + 1) / 4 == p && (4 * p + 2) / 4 == p && (4 * p + 3)
            / 4 == p);
        p += 1;
        assert(out@ =~= Seq::new((4 * p) as nat, f));
    }
    let r = rgba_from_raw(width, height, out);
    r.unwrap()
}

/// The RGBA samples of `n` pixels of RGB samples, fully opaque.
pub open spec fn rgb_to_rgba_samples(n: int, s: Seq<u8>) -> Seq<u8> {
    Seq::new(
        (4 * n) as nat,
        |k: int|
            if k % 4 == 3 {
                255u8
            } else {
                s[(k / 4) * 3 + k % 4]
            },
    )
}

/// The RGB samples of `n` pixels of RGBA samples, alpha dropped.
pub open spec fn rgba_to_rgb_samples(n: int, s: Seq<u8>) -> Seq<u8> {
    Seq::new((3 * n) as nat, |k: int| s[(k / 3) * 4 + k % 3])
}

/// Convert an RGB image to an RGBA image of the same size with full
/// opacity.
pub fn rgb_to_rgba(rgb: &RgbBuffer) -> (r: RgbaBuffer)
    requires
        4 * rgb_dims(*rgb).0 as int <= usize::MAX,
        4 * pixel_count(rgb_dims(*rgb)) <= usize::MAX,
    ensures
        rgba_dims(r) == rgb_dims(*rgb),
        rgba_samples(r) == rgb_to_rgba_samples(pixel_count(rgb_dims(*rgb)), rgb_samples(*rgb)),
{
    let (width, height) = rgb_dimensions(rgb);
    let src = rgb_as_raw(rgb);
    proof {
        assert(width as int * height as int <= 4 * pixel_count((width, height))) by (nonlinear_arith);
    }
    let n = width as usize * height as usize;
    let ghost s = src@;
    let ghost f = |k: int|
        if k % 4 == 3 {
            255u8
        } else {
            s[(k / 4) * 3 + k % 4]
        };
    let mut out: Vec<u8> = Vec::new();
    let mut p: usize = 0;
    while p < n
        invariant
            n == pixel_count((width, height)),
            4 * n <= usize::MAX,
            src@ == s,
            s.len() >= 3 * n,
            p <= n,
            out@ =~= Seq::new((4 * p) as nat, f),
            f == (|k: int|
                if k % 4 == 3 {
                    255u8
                } else {
                    s[(k / 4) * 3 + k % 4]
                }),
        decreases n - p,
    {
        let idx = 3 * p;
        out.push(src[idx]);
        out.push(src[idx + 1]);
        out.push(src[idx + 2]);
        out.push(255);
        assert((4 * p + 0) / 4 == p && (4 * p + 1) / 4 == p && (4 * p + 2) / 4 == p && (4 * p + 3)
            / 4 == p);
        p += 1;
        assert(out@ =~= Seq::new((4 * p) as nat, f));
    }
    let r = rgba_from_raw(width, height, out);
    r.unwrap()
}

/// Convert an RGBA image to an RGB image of the same size, discarding
/// alpha.
pub fn rgba_to_rgb(rgba: &RgbaBuffer) -> (r: RgbBuffer)
    ensures
        rgb_dims(r) == rgba_dims(*rgba),
        rgb_samples(r) == rgba_to_rgb_samples(pixel_count(rgba_dims(*rgba)), rgba_samples(*rgba)),
{
    let (width, height) = rgba_dimensions(rgba);
    let src = rgba_as_raw(rgba);
    let total = src.len();
    proof {
        assert(width as int * height as int <= 4 * pixel_count((width, height))) by (nonlinear_arith);
    }
    let n = width as usize * height as usize;
    let ghost s = src@;
    let ghost f = |k: int| s[(k / 3) * 4 + k % 3];
    let mut out: Vec<u8> = Vec::new();
    let mut p: usize = 0;
    while p < n
        invariant
            n == pixel_count((width, height)),
            src@ == s,
            s.len() >= 4 * n,
            s.len() == total,
            p <= n,
            out@ =~= Seq::new((3 * p) as nat, f),
            f == (|k: int| s[(k / 3) * 4 + k % 3]),
        decreases n - p,
    {
        let idx = 4 * p;
        out.push(src[idx]);
        out.push(src[idx + 1]);
        out.push(src[idx + 2]);
        assert((3 * p + 0) / 3 == p && (3 * p + 1) / 3 == p && (3 * p + 2) / 3 == p);
        p += 1;
        assert(out@ =~= Seq::new((3 * p) as nat, f));
    }
    let r = rgb_from_raw(width, height, out);
    r.unwrap()
}

/// Scale an image to the target size with the Lanczos3 filter. An image
/// that already has that size is copied unchanged.
pub fn scale_image(src: &RgbBuffer, target_width: u32, target_height: u32) -> (r: RgbBuffer)
    requires
        3 * target_width as int <= usize::MAX,
        3 * pixel_count((target_width, target_height)) <= usize::MAX,
        4 * rgb_dims(*src).0 as int <= usize::MAX,
        4 * pixel_count((rgb_dims(*src).0, target_height)) <= usize::MAX,
    ensures
        rgb_dims(r) == (target_width, target_height),
        rgb_dims(*src) == (target_width, target_height) ==> rgb_samples(r) == rgb_samples(*src),
{
    let (width, height) = rgb_dimensions(src);
    if width == target_width && height == target_height {
        return rgb_clone(src);
    }
    resize_lanczos3(src, target_width, target_height)
}

} // verus!
