use vstd::prelude::*;

use crate::error::EncodeError;

use image::ImageEncoder;

verus! {

/// The PNG file that the `image` crate writes for 8-bit RGBA `pixels` of the
/// given dimensions, or `None` where its encoder reports an error.
pub uninterp spec fn png_encoding(pixels: Seq<u8>, width: u32, height: u32) -> Option<Seq<u8>>;

/// Number of bytes of an 8-bit RGBA raster.
pub open spec fn rgba_len(width: u32, height: u32) -> int {
    4 * (width as int) * (height as int)
}

/// An in-memory raster image, meant as 8-bit RGBA, row by row.
pub struct DecodedImage {
    pub width: u32,
    pub height: u32,
    pub pixels: Vec<u8>,
}

impl DecodedImage {
    /// The pixel buffer holds exactly one RGBA quadruple per pixel.
    pub open spec fn is_rgba8(&self) -> bool {
        self.pixels@.len() == rgba_len(self.width, self.height)
    }
}

/// A PNG byte buffer together with the dimensions of the image it encodes.
pub struct EncodedPayload {
    pub bytes: Vec<u8>,
    pub width: u32,
    pub height: u32,
}

impl View for EncodedPayload {
    type V = (Seq<u8>, u32, u32);

    open spec fn view(&self) -> (Seq<u8>, u32, u32) {
        (self.bytes@, self.width, self.height)
    }
}

/// `n / d <= sqrt(target / encoded_len)`, squared and multiplied out so that
/// it holds exactly over the integers.
pub open spec fn within_ratio(n: int, d: int, encoded_len: int, target: int) -> bool {
    n * n * encoded_len <= d * d * target
}

/// `n == floor(d / r)` with `r = sqrt(encoded_len / target)`: the largest `u32`
/// that stays within the ratio.
pub open spec fn is_scaled_dimension(n: u32, d: u32, encoded_len: int, target: int) -> bool {
    &&& within_ratio(n as int, d as int, encoded_len, target)
    &&& n < u32::MAX ==> !within_ratio(n + 1, d as int, encoded_len, target)
}

/// The scaled dimension as a value (it exists and is unique, see
/// `lemma_scaled_dimension_unique`).
pub open spec fn scaled_dimension_of(d: u32, encoded_len: int, target: int) -> u32 {
    choose|n: u32| is_scaled_dimension(n, d, encoded_len, target)
}

/// What `fit` may return: the first PNG encoding where it is within the hard
/// limit; else the encoding of some RGBA raster of exactly the scaled sides
/// `floor(w / r) x floor(h / r)` (one resize, one more encoding, whatever its
/// size), or `Io` where that encoding fails.
pub open spec fn fit_outcome(
    pixels: Seq<u8>,
    width: u32,
    height: u32,
    hard_limit: int,
    target: int,
    r: Result<(Seq<u8>, u32, u32), EncodeError>,
) -> bool {
    if pixels.len() != rgba_len(width, height) {
        r == Err::<(Seq<u8>, u32, u32), EncodeError>(EncodeError::Unsupported)
    } else {
        match png_encoding(pixels, width, height) {
            None => r == Err::<(Seq<u8>, u32, u32), EncodeError>(EncodeError::Io),
            Some(png) => if png.len() <= hard_limit {
                r == Ok::<(Seq<u8>, u32, u32), EncodeError>((png, width, height))
            } else {
                match r {
                    Ok((bytes, nw, nh)) => {
                        &&& nw == scaled_dimension_of(width, png.len() as int, target)
                        &&& nh == scaled_dimension_of(height, png.len() as int, target)
                        &&& exists|p: Seq<u8>|
                            p.len() == rgba_len(nw, nh) && #[trigger] png_encoding(p, nw, nh)
                                == Some(bytes)
                    },
                    Err(e) => e == EncodeError::Io,
                }
            },
        }
    }
}

pub open spec fn payload_view(r: Result<EncodedPayload, EncodeError>) -> Result<
    (Seq<u8>, u32, u32),
    EncodeError,
> {
    match r {
        Ok(p) => Ok(p@),
        Err(e) => Err(e),
    }
}

proof fn lemma_within_monotone(a: int, b: int, d: int, encoded_len: int, target: int)
    requires
        0 <= a <= b,
        0 <= encoded_len,
        within_ratio(b, d, encoded_len, target),
    ensures
        within_ratio(a, d, encoded_len, target),
{
    assert(a * a <= b * b) by (nonlinear_arith)
        requires
            0 <= a <= b,
    ;
    assert(a * a * encoded_len <= b * b * encoded_len) by (nonlinear_arith)
        requires
            a * a <= b * b,
            0 <= encoded_len,
    ;
}

/// At most one `u32` is the scaled dimension.
pub proof fn lemma_scaled_dimension_unique(n: u32, m: u32, d: u32, encoded_len: int, target: int)
    requires
        0 <= encoded_len,
        is_scaled_dimension(n, d, encoded_len, target),
        is_scaled_dimension(m, d, encoded_len, target),
    ensures
        n == m,
{
    if n < m {
        lemma_within_monotone(n + 1, m as int, d as int, encoded_len, target);
    } else if m < n {
        lemma_within_monotone(m + 1, n as int, d as int, encoded_len, target);
    }
}

/// Shrinking never grows a side: with `target < encoded_len` the scaled
/// dimension is at most the side it scales.
pub proof fn lemma_scaled_dimension_shrinks(n: u32, d: u32, encoded_len: int, target: int)
    requires
        0 <= target < encoded_len,
        within_ratio(n as int, d as int, encoded_len, target),
    ensures
        n <= d,
{
    if n > d {
        let (ni, di) = (n as int, d as int);
        assert(ni * ni * encoded_len > di * di * target) by (nonlinear_arith)
            requires
                ni > di >= 0,
                0 <= target < encoded_len,
        ;
    }
}

/// `floor(d / sqrt(encoded_len / target))`, computed exactly over the
/// integers, saturating at `u32::MAX`.
pub fn scaled_dimension(d: u32, encoded_len: usize, target: usize) -> (r: u32)
    ensures
        is_scaled_dimension(r, d, encoded_len as int, target as int),
        r == scaled_dimension_of(d, encoded_len as int, target as int),
{
    assert((d as int) * (d as int) <= u64::MAX) by (nonlinear_arith)
        requires
            d <= u32::MAX,
    ;
    let dd: u128 = (d as u128) * (d as u128);
    assert(dd * (target as u128) <= u128::MAX) by (nonlinear_arith)
        requires
            dd == (d as int) * (d as int),
            d <= u32::MAX,
            target <= u64::MAX,
    ;
    let bound: u128 = dd * (target as u128);
    let mut lo: u32 = 0;
    let mut hi: u32 = u32::MAX;
    assert(within_ratio(0, d as int, encoded_len as int, target as int)) by (nonlinear_arith)
        requires
            0 <= target,
    ;
    while lo < hi
        invariant
            lo <= hi,
            bound == (d as int) * (d as int) * (target as int),
            within_ratio(lo as int, d as int, encoded_len as int, target as int),
            hi < u32::MAX ==> !within_ratio(hi + 1, d as int, encoded_len as int, target as int),
        decreases hi - lo,
    {
        let mid: u32 = lo + (hi - lo - 1) / 2 + 1;
        let m: u128 = mid as u128;
        assert(m * m <= u64::MAX) by (nonlinear_arith)
            requires
                m <= u32::MAX,
        ;
        assert(m * m * (encoded_len as u128) <= u128::MAX) by (nonlinear_arith)
            requires
                m <= u32::MAX,
                encoded_len <= u64::MAX,
        ;
        if m * m * (encoded_len as u128) <= bound {
            lo = mid;
        } else {
            hi = mid - 1;
        }
    }
    proof {
        let r = scaled_dimension_of(d, encoded_len as int, target as int);
        assert(is_scaled_dimension(lo, d, encoded_len as int, target as int));
        lemma_scaled_dimension_unique(lo, r, d, encoded_len as int, target as int);
    }
    lo
}

/// Relies on `image::codecs::png::PngEncoder::write_image` (8-bit RGBA into an
/// in-memory buffer): the output is determined by its arguments, and the
/// encoder refuses a zero width or height. It asserts that the buffer length
/// matches the dimensions, which `requires` guarantees.
#[verifier::external_body]
fn encode_png(pixels: &[u8], width: u32, height: u32) -> (r: Option<Vec<u8>>)
    requires
        pixels@.len() == rgba_len(width, height),
    ensures
        match r {
            Some(b) => png_encoding(pixels@, width, height) == Some(b@),
            None => png_encoding(pixels@, width, height) is None,
        },
        (width == 0 || height == 0) ==> r is None,
{
    let mut buf: Vec<u8> = Vec::new();
    match image::codecs::png::PngEncoder::new(&mut buf).write_image(
        pixels,
        width,
        height,
        image::ColorType::Rgba8,
    ) {
        Ok(()) => Some(buf),
        Err(_) => None,
    }
}

/// Relies on `image::imageops::resize` with `FilterType::Gaussian`: the output
/// is an RGBA buffer of exactly the new dimensions. Its pixels come from `f32`
/// arithmetic whose precision std leaves unspecified, so nothing is claimed of
/// them. It reads every source row and column, so the source must not be
/// empty, and it allocates buffers of `4 * width * new_height` `f32` channels
/// and `4 * new_width * new_height` bytes, whose counts must fit a `usize`.
#[verifier::external_body]
fn resize_rgba(pixels: &Vec<u8>, width: u32, height: u32, new_width: u32, new_height: u32) -> (r:
    Vec<u8>)
    requires
        pixels@.len() == rgba_len(width, height),
        width > 0,
        height > 0,
        rgba_len(width, new_height) <= usize::MAX,
        rgba_len(new_width, new_height) <= usize::MAX,
    ensures
        r@.len() == rgba_len(new_width, new_height),
{
    match image::RgbaImage::from_raw(width, height, pixels.clone()) {
        Some(img) => image::imageops::resize(
            &img,
            new_width,
            new_height,
            image::imageops::FilterType::Gaussian,
        ).into_raw(),
        None => Vec::new(),
    }
}

/// Whether the pixel buffer is 8-bit RGBA of the declared dimensions.
pub fn is_rgba8(image: &DecodedImage) -> (r: bool)
    ensures
        r == image.is_rgba8(),
{
    assert(4 * (image.width as int) * (image.height as int) <= u128::MAX) by (nonlinear_arith)
        requires
            image.width <= u32::MAX,
            image.height <= u32::MAX,
    ;
    let expected: u128 = 4 * (image.width as u128) * (image.height as u128);
    (image.pixels.len() as u128) == expected
}

/// Encodes the image losslessly as PNG.
pub fn image_data_to_png(image: &DecodedImage) -> (r: Result<Vec<u8>, EncodeError>)
    ensures
        !image.is_rgba8() ==> r == Err::<Vec<u8>, EncodeError>(EncodeError::Unsupported),
        image.is_rgba8() ==> match png_encoding(image.pixels@, image.width, image.height) {
            Some(png) => r is Ok && r->Ok_0@ == png,
            None => r == Err::<Vec<u8>, EncodeError>(EncodeError::Io),
        },
        (image.width == 0 || image.height == 0) ==> r is Err,
{
    if !is_rgba8(image) {
        return Err(EncodeError::Unsupported);
    }
    match encode_png(image.pixels.as_slice(), image.width, image.height) {
        Some(png) => Ok(png),
        None => Err(EncodeError::Io),
    }
}

/// Encodes an RGBA raster of the given sides as the PNG payload of a resized
/// image.
pub fn encode_resized(pixels: &Vec<u8>, width: u32, height: u32) -> (r: Result<
    EncodedPayload,
    EncodeError,
>)
    requires
        pixels@.len() == rgba_len(width, height),
    ensures
        payload_view(r) == match png_encoding(pixels@, width, height) {
            Some(b) => Ok((b, width, height)),
            None => Err(EncodeError::Io),
        },
{
    match encode_png(pixels.as_slice(), width, height) {
        Some(bytes) => Ok(EncodedPayload { bytes, width, height }),
        None => Err(EncodeError::Io),
    }
}

/// Encodes the image as PNG; where that exceeds `hard_limit` bytes, shrinks
/// both sides by `r = sqrt(encoded_len / target)` in one Gaussian resize and
/// encodes again, without checking the limit a second time.
pub fn fit(image: &DecodedImage, hard_limit: usize, target: usize) -> (r: Result<
    EncodedPayload,
    EncodeError,
>)
    requires
        target <= hard_limit,
    ensures
        fit_outcome(
            image.pixels@,
            image.width,
            image.height,
            hard_limit as int,
            target as int,
            payload_view(r),
        ),
        image.is_rgba8() ==> match png_encoding(image.pixels@, image.width, image.height) {
            Some(png) => {
                &&& png.len() <= hard_limit ==> r is Ok && r->Ok_0@ == (
                    png,
                    image.width,
                    image.height,
                )
                &&& png.len() > hard_limit && r is Ok ==> {
                    let (bytes, nw, nh) = r->Ok_0@;
                    &&& is_scaled_dimension(nw, image.width, png.len() as int, target as int)
                    &&& is_scaled_dimension(nh, image.height, png.len() as int, target as int)
                    &&& exists|p: Seq<u8>|
                        p.len() == rgba_len(nw, nh) && #[trigger] png_encoding(p, nw, nh) == Some(
                            bytes,
                        )
                }
                &&& png.len() > hard_limit && r is Err ==> r->Err_0 == EncodeError::Io
            },
            None => r == Err::<EncodedPayload, EncodeError>(EncodeError::Io),
        },
{
    let png = match image_data_to_png(image) {
        Ok(png) => png,
        Err(e) => return Err(e),
    };
    if png.len() <= hard_limit {
        return Ok(EncodedPayload { bytes: png, width: image.width, height: image.height });
    }
    let len = png.len();
    let source_len = image.pixels.len();
    let new_width = scaled_dimension(image.width, len, target);
    let new_height = scaled_dimension(image.height, len, target);
    proof {
        lemma_scaled_dimension_shrinks(new_width, image.width, len as int, target as int);
        lemma_scaled_dimension_shrinks(new_height, image.height, len as int, target as int);
        let (w, h, nw, nh) = (
            image.width as int,
            image.height as int,
            new_width as int,
            new_height as int,
        );
        assert(4 * w * nh <= 4 * w * h && 4 * nw * nh <= 4 * w * h) by (nonlinear_arith)
            requires
                0 <= nw <= w,
                0 <= nh <= h,
        ;
    }
    let resized = resize_rgba(&image.pixels, image.width, image.height, new_width, new_height);
    let r = encode_resized(&resized, new_width, new_height);
    proof {
        if r is Ok {
            let p = resized@;
            assert(p.len() == rgba_len(new_width, new_height) && png_encoding(p, new_width, new_height)
                == Some(r->Ok_0.bytes@));
        }
    }
    r
}

} // verus!
