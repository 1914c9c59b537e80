//! Decoding of one frame as the host hands it over.
//!
//! The host stores a frame from the bottom row up, three bytes per pixel in
//! the order blue, green, red.  An image holds its rows from the top down,
//! three bytes per pixel in the order red, green, blue.

use vstd::arithmetic::div_mod::lemma_fundamental_div_mod_converse;
use vstd::prelude::*;

use image::RgbImage;

use super::error::Error;

verus! {

/// A decoded frame: an `image::RgbImage`.
///
/// Nothing is known here of what is inside an image.  What it holds goes by
/// the names [`image_size`] and [`image_samples`]; [`Image::dimensions`] and
/// [`Image::into_raw`] hand it out.
#[verifier::external_body]
pub struct Image {
    inner: RgbImage,
}

/// The width and the height of an image, in pixels.
pub uninterp spec fn image_size(img: Image) -> (u32, u32);

/// The samples of an image: row by row from the top, and in each row pixel by
/// pixel from the left, three samples a pixel.
pub uninterp spec fn image_samples(img: Image) -> Seq<u8>;

/// Calls `image::ImageBuffer::dimensions`.
///
/// Trusted: it gives the width and the height that the image was made with.
#[verifier::external_body]
fn image_dimensions(img: &Image) -> (size: (u32, u32))
    ensures
        size == image_size(*img),
{
    img.inner.dimensions()
}

/// Calls `image::ImageBuffer::into_raw`.
///
/// Trusted: it gives the buffer of the image, which holds the samples in the
/// order of [`image_samples`].
#[verifier::external_body]
fn image_into_raw(img: Image) -> (samples: Vec<u8>)
    ensures
        samples@ == image_samples(img),
{
    img.inner.into_raw()
}

impl Image {
    /// The width and the height of the image, in pixels.
    pub fn dimensions(&self) -> (size: (u32, u32))
        ensures
            size == image_size(*self),
    {
        image_dimensions(self)
    }

    /// The samples of the image, which is given up for them.
    pub fn into_raw(self) -> (samples: Vec<u8>)
        ensures
            samples@ == image_samples(self),
    {
        image_into_raw(self)
    }
}

/// Whether `len` bytes are enough for a frame of `width` by `height` pixels.
pub open spec fn frame_fits(len: nat, width: u32, height: u32) -> bool {
    3 * (width * height) <= len
}

/// Where the pixel in column `x` of row `y`, counted from the top, starts in
/// the host's buffer.
pub open spec fn source_offset(width: u32, height: u32, x: int, y: int) -> int {
    3 * (x + (height - y - 1) * width)
}

/// The red, green and blue sample of the pixel in column `x` of row `y`.
pub open spec fn spec_pixel(data: Seq<u8>, width: u32, height: u32, x: int, y: int) -> Seq<u8> {
    let at = source_offset(width, height, x, y);
    seq![data[at + 2], data[at + 1], data[at]]
}

/// The samples of the image that the host's buffer `data` stands for.
pub open spec fn decoded_samples(data: Seq<u8>, width: u32, height: u32) -> Seq<u8> {
    Seq::new(
        (3 * (width * height)) as nat,
        |i: int|
            {
                let pixel = i / 3;
                let x = pixel % (width as int);
                let y = pixel / (width as int);
                spec_pixel(data, width, height, x, y)[i % 3]
            },
    )
}

/// The pixel in column `x` of row `y` reads inside a buffer that fits.
pub proof fn lemma_source_in_bounds(len: nat, width: u32, height: u32, x: int, y: int)
    requires
        frame_fits(len, width, height),
        0 <= x < width,
        0 <= y < height,
    ensures
        0 <= (height - y - 1) * width,
        0 <= source_offset(width, height, x, y),
        source_offset(width, height, x, y) + 2 < len,
{
    let w = width as int;
    let h = height as int;
    assert(0 <= (h - y - 1) * w && x + (h - y - 1) * w + 1 <= w * h) by (nonlinear_arith)
        requires
            0 <= x < w,
            0 <= y < h,
    ;
}

/// Rows are turned over and samples are swapped: the sample `c` of the pixel
/// in column `x` of row `y` of the image is the sample `2 - c` of the pixel in
/// column `x` of row `height - 1 - y` of the host's buffer.
pub proof fn lemma_decoded_sample(data: Seq<u8>, width: u32, height: u32, x: int, y: int, c: int)
    requires
        0 <= x < width,
        0 <= y < height,
        0 <= c < 3,
    ensures
        decoded_samples(data, width, height).len() == 3 * (width * height),
        0 <= 3 * (y * width + x) + c < decoded_samples(data, width, height).len(),
        decoded_samples(data, width, height)[3 * (y * width + x) + c] == data[3 * ((height - 1
            - y) * width + x) + (2 - c)],
{
    let w = width as int;
    let h = height as int;
    let p = y * w + x;
    assert(0 <= p && p + 1 <= w * h) by (nonlinear_arith)
        requires
            p == y * w + x,
            0 <= x < w,
            0 <= y < h,
    ;
    lemma_fundamental_div_mod_converse(p, w, y, x);
    let i = 3 * p + c;
}

/// Reads the pixel in column `x` of row `y`, counted from the top, out of
/// the host's buffer.
pub fn pixel_at(data: &Vec<u8>, width: u32, height: u32, x: u32, y: u32) -> (rgb: [u8; 3])
    requires
        frame_fits(data@.len(), width, height),
        x < width,
        y < height,
    ensures
        rgb@ == spec_pixel(data@, width, height, x as int, y as int),
{
    proof {
        lemma_source_in_bounds(data@.len(), width, height, x as int, y as int);
    }
    let row: usize = (height - y - 1) as usize;
    let stride: usize = width as usize;
    assert(row * stride == (height - y - 1) * width) by (nonlinear_arith)
        requires
            row == height - y - 1,
            stride == width,
    ;
    assert(3 * (x + row * stride) + 2 < data.len());
    let i: usize = x as usize + row * stride;
    let rgb = [data[i * 3 + 2], data[i * 3 + 1], data[i * 3]];
    rgb
}

/// Calls `image::ImageBuffer::from_fn` with a closure that reads each pixel
/// with [`pixel_at`].
///
/// Trusted: the image has the size that was asked for, and the pixel in
/// column `x` of row `y` is what the closure returned for `(x, y)`; the
/// closure is called for coordinates inside the image only.  The buffer of
/// such an image cannot be too large to allocate, since `data` holds as many
/// bytes.
#[verifier::external_body]
fn image_from_fn(data: &Vec<u8>, width: u32, height: u32) -> (img: Image)
    requires
        frame_fits(data@.len(), width, height),
    ensures
        image_size(img) == (width, height),
        image_samples(img) == decoded_samples(data@, width, height),
{
    Image {
        inner: RgbImage::from_fn(
            width,
            height,
            |x, y| image::Rgb(pixel_at(data, width, height, x, y)),
        ),
    }
}

/// Decodes the frame that the host left in `data` into an image of `width`
/// by `height` pixels.
pub fn decode_frame(data: &Vec<u8>, width: u32, height: u32) -> (r: Result<Image, Error>)
    ensures
        frame_fits(data@.len(), width, height) ==> r is Ok,
        !frame_fits(data@.len(), width, height) ==> r is Err,
        r matches Ok(img) ==> image_size(img) == (width, height) && image_samples(img)
            == decoded_samples(data@, width, height),
        r matches Err(e) ==> e == Error::FrameTooShort,
{
    let pixels: u64 = pixel_count(width, height);
    if pixels > (data.len() as u64) / 3 {
        return Err(Error::FrameTooShort);
    }
    Ok(image_from_fn(data, width, height))
}

/// The number of pixels of a frame.
pub fn pixel_count(width: u32, height: u32) -> (pixels: u64)
    ensures
        pixels == width * height,
{
    assert(width * height <= 0xffff_ffff * 0xffff_ffff) by (nonlinear_arith)
        requires
            width <= 0xffff_ffff,
            height <= 0xffff_ffff,
    ;
    (width as u64) * (height as u64)
}

} // verus!
