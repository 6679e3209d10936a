//! The preview of a spray: its decoded picture scaled to a fixed square and
//! laid out as 8-bit RGBA samples, row by row.
use vstd::prelude::*;
use image::DynamicImage;

verus! {

/// A decoded picture of the `image` crate, carried through unopened.
#[verifier::external_type_specification]
#[verifier::external_body]
pub struct ExDynamicImage(image::DynamicImage);

/// The width and height of a picture: what it was made with.
pub uninterp spec fn image_size(img: DynamicImage) -> (u32, u32);

/// What a picture holds, as 8-bit RGBA samples row by row.
pub uninterp spec fn rgba8_samples(img: DynamicImage) -> Seq<u8>;

/// What `DynamicImage::resize_exact` makes of `img` scaled to `width` by
/// `height` with `filter`.
pub uninterp spec fn resized(img: DynamicImage, width: u32, height: u32, filter: ResizeFilter) -> DynamicImage;

/// The resampling filters whose results are fixed by their inputs: their
/// kernels compute with `+`, `*`, `/`, `abs`, `floor`, `ceil` and `round`
/// only, whose results std specifies exactly. (The `image` crate's other
/// filters use `powi`, `exp` or `sin`, whose precision std leaves open.)
#[derive(Debug, PartialEq, Eq, Clone, Copy)]
pub enum ResizeFilter {
    Nearest,
    Triangle,
}

/// The side of the square a preview is scaled to.
pub const PREVIEW_SIDE: u32 = 360;

/// A preview ready to be shown: its size and its RGBA samples.
#[derive(Debug, PartialEq, Eq)]
pub struct PreviewImage {
    pub width: u32,
    pub height: u32,
    pub rgba: Vec<u8>,
}

/// `DynamicImage::resize_exact` of the `image` crate: the picture scaled to
/// exactly `width` by `height`, its aspect ratio not kept. The source shows
/// that every branch of the resampler returns a freshly allocated buffer of
/// the asked size (an empty picture included), so its RGBA form holds four
/// samples per pixel and no more. With the filters of `ResizeFilter` the
/// same arguments always give the same picture, named `resized`; the
/// resampled values themselves are not stated. Buffers whose sample count
/// does not fit a `usize` make the allocation panic, so they are left out.
#[verifier::external_body]
fn resize_exact(img: &DynamicImage, width: u32, height: u32, filter: ResizeFilter) -> (r: DynamicImage)
    requires
        4 * width * height <= usize::MAX,
    ensures
        r == resized(*img, width, height, filter),
        image_size(r) == (width, height),
        rgba8_samples(r).len() == 4 * width * height,
{
    let filter = match filter {
        ResizeFilter::Nearest => image::imageops::FilterType::Nearest,
        ResizeFilter::Triangle => image::imageops::FilterType::Triangle,
    };
    img.resize_exact(width, height, filter)
}

/// `DynamicImage::dimensions` of the `image` crate: the width and height.
#[verifier::external_body]
fn dimensions(img: &DynamicImage) -> (r: (u32, u32))
    ensures
        r == image_size(*img),
{
    image::GenericImageView::dimensions(img)
}

/// `DynamicImage::to_rgba8` of the `image` crate, taken apart into its
/// sample buffer: the picture's samples as 8-bit RGBA. There are at least
/// four per pixel; a picture made by `ImageBuffer::from_raw` over a longer
/// buffer keeps its extra samples, so no exact count is stated here.
#[verifier::external_body]
fn to_rgba8_samples(img: &DynamicImage) -> (r: Vec<u8>)
    ensures
        r@ == rgba8_samples(*img),
        r@.len() >= 4 * image_size(*img).0 * image_size(*img).1,
{
    img.to_rgba8().into_raw()
}

/// The preview of a decoded spray: the picture scaled to a square of
/// `PREVIEW_SIDE` with the triangle filter, as RGBA samples, four per pixel,
/// with the size it was scaled to.
pub fn preview_from_image(decoded: &DynamicImage) -> (r: PreviewImage)
    ensures
        r.width == PREVIEW_SIDE,
        r.height == PREVIEW_SIDE,
        r.rgba@ == rgba8_samples(resized(*decoded, PREVIEW_SIDE, PREVIEW_SIDE, ResizeFilter::Triangle)),
        r.rgba@.len() == 4 * PREVIEW_SIDE * PREVIEW_SIDE,
{
    let scaled = resize_exact(decoded, PREVIEW_SIDE, PREVIEW_SIDE, ResizeFilter::Triangle);
    let rgba = to_rgba8_samples(&scaled);
    let (width, height) = dimensions(&scaled);
    PreviewImage { width, height, rgba }
}

} // verus!
