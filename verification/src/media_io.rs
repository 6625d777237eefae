//! The trusted boundary to the outside world: decoding and re-encoding
//! images, probing the filesystem, and percent-encoding storage names.
//! Each item here wraps exactly one outside call; everything the library
//! concludes from one of these rests on the contract written next to it.

use vstd::prelude::*;

verus! {

/// An in-memory decoded image, opaque to the verifier; the pixel data lives
/// entirely on the other side of this boundary.
#[verifier::external_type_specification]
#[verifier::external_body]
pub struct ExDynamicImage(image::DynamicImage);

/// What percent-encoding makes of a string.  The encoding is a pure function
/// of its input, so the result only gets a name here; nothing else is
/// assumed about it.
pub uninterp spec fn url_encoded(s: Seq<char>) -> Seq<char>;

/// Relies on urlencoding::encode: percent-encodes every byte except
/// alphanumerics and `-`, `_`, `.`, `~`; the result depends on the input
/// characters alone, and an empty input stays empty.
#[verifier::external_body]
pub fn url_encode(s: &str) -> (r: String)
    ensures
        r@ == url_encoded(s@),
        s@.len() == 0 ==> r@.len() == 0,
{
    urlencoding::encode(s).into_owned()
}

/// Relies on std's Path::exists: whether the path currently names something
/// on the local filesystem.  The answer depends on the state of the disk, so
/// nothing relates it to the argument.
#[verifier::external_body]
pub fn path_exists(path: &str) -> bool {
    std::path::Path::new(path).exists()
}

/// Relies on image::open: decodes the file at `path` into pixel data,
/// guessing the format from the extension.  Whether it succeeds depends on
/// the disk, so nothing is promised of the outcome; the error holds the
/// decoder's own message.
#[verifier::external_body]
pub fn open_image(path: &str) -> Result<image::DynamicImage, String> {
    match image::open(path) {
        Ok(img) => Ok(img),
        Err(e) => Err(e.to_string()),
    }
}

/// Relies on image's GenericImageView::dimensions: the width and height of
/// the decoded image, in pixels.
#[verifier::external_body]
pub fn image_dimensions(img: &image::DynamicImage) -> (u32, u32) {
    image::GenericImageView::dimensions(img)
}

/// Relies on DynamicImage::crop: copies out the rectangle of the given
/// position and size (clamped to the image bounds if it overhangs, which
/// validated calls never do).
#[verifier::external_body]
pub fn crop_image_region(
    img: &mut image::DynamicImage,
    x: u32,
    y: u32,
    width: u32,
    height: u32,
) -> image::DynamicImage {
    img.crop(x, y, width, height)
}

/// Relies on DynamicImage::save: encodes the image in the format named by
/// the path's extension and writes it there.  Success depends on the disk;
/// the error holds the encoder's own message.
#[verifier::external_body]
pub fn save_image(img: &image::DynamicImage, path: &str) -> Result<(), String> {
    match img.save(path) {
        Ok(()) => Ok(()),
        Err(e) => Err(e.to_string()),
    }
}

} // verus!
