//! The trusted boundary around the `image` crate: decoding, resampling and
//! encoding of raster images. Everything else in this crate is verified
//! against the contracts stated here.
//!
//! Decoding is promised nothing: the `image` crate lets any crate in the
//! process register decoding and format-detection hooks
//! (`image::hooks::register_decoding_hook`,
//! `image::hooks::register_format_detection_hook`) that are consulted on
//! the `load_from_memory` path, so what a byte buffer decodes to is not a
//! function of the bytes in every process. The library therefore states
//! its per-image guarantees downstream, on functions that take the decoded
//! [`Image`] as an argument and hold for every value of it. Encoding
//! consults no hooks.

use vstd::prelude::*;
use crate::chars::lower_seq;

verus! {

#[verifier::external_type_specification]
#[verifier::external_body]
pub struct ExDynamicImage(image::DynamicImage);

/// A decoded raster image: the pixel data, together with its width and
/// height in pixels and a tag for its color type (the discriminant of
/// `image::ColorType`). The fields are private: a value comes only out of
/// `decode_image` or `resize_image` below, which keep the recorded width,
/// height and color equal to those of the held pixel data.
pub struct Image {
    width: u32,
    height: u32,
    color: u8,
    data: image::DynamicImage,
}

impl Image {
    /// The width in pixels of the held pixel data.
    pub closed spec fn spec_width(&self) -> u32 {
        self.width
    }

    /// The height in pixels of the held pixel data.
    pub closed spec fn spec_height(&self) -> u32 {
        self.height
    }

    /// The color-type tag of the held pixel data.
    pub closed spec fn spec_color(&self) -> u8 {
        self.color
    }

    #[verifier::when_used_as_spec(spec_width)]
    pub fn width(&self) -> (r: u32)
        ensures
            r == self.spec_width(),
    {
        self.width
    }

    #[verifier::when_used_as_spec(spec_height)]
    pub fn height(&self) -> (r: u32)
        ensures
            r == self.spec_height(),
    {
        self.height
    }

    #[verifier::when_used_as_spec(spec_color)]
    pub fn color(&self) -> (r: u8)
        ensures
            r == self.spec_color(),
    {
        self.color
    }
}

/// Relies on `image::load_from_memory` only to return a decoded image or an
/// error. Nothing is promised of which: registered hooks (see the module
/// text) can change the outcome for the same bytes. On success the returned
/// descriptor records the width, height and color type that
/// `DynamicImage::width`, `height` and `color` report of the decoded data.
#[verifier::external_body]
pub(crate) fn decode_image(bytes: &[u8]) -> (r: Result<Image, String>) {
    match image::load_from_memory(bytes) {
        Ok(data) => {
            let (width, height, color) = (data.width(), data.height(), data.color() as u8);
            Ok(Image { width, height, color, data })
        },
        Err(e) => Err(format!("{e}")),
    }
}

/// Relies on `DynamicImage::resize_exact`: the returned image has exactly
/// the requested dimensions, keeps the color type of its input, and does
/// not preserve aspect ratio. The resampling filter is fixed to Lanczos3.
#[verifier::external_body]
pub(crate) fn resize_image(img: &Image, w: u32, h: u32) -> (r: Image)
    requires
        1 <= w,
        1 <= h,
    ensures
        r.spec_width() == w,
        r.spec_height() == h,
        r.spec_color() == img.spec_color(),
{
    let data = img.data.resize_exact(w, h, image::imageops::FilterType::Lanczos3);
    Image { width: w, height: h, color: img.color, data }
}

/// The lowercase extension tokens for which the codec layer selects an
/// output format.
pub open spec fn codec_ext_token(e: Seq<char>) -> bool {
    ||| e == "avif"@
    ||| e == "jpg"@
    ||| e == "jpeg"@
    ||| e == "jfif"@
    ||| e == "png"@
    ||| e == "apng"@
    ||| e == "gif"@
    ||| e == "webp"@
    ||| e == "tif"@
    ||| e == "tiff"@
    ||| e == "tga"@
    ||| e == "dds"@
    ||| e == "bmp"@
    ||| e == "ico"@
    ||| e == "hdr"@
    ||| e == "exr"@
    ||| e == "pbm"@
    ||| e == "pam"@
    ||| e == "ppm"@
    ||| e == "pgm"@
    ||| e == "pnm"@
    ||| e == "ff"@
    ||| e == "qoi"@
}

/// The codec layer maps an extension to an output format exactly when its
/// ASCII lowercasing is one of its fixed tokens.
pub open spec fn codec_recognizes(e: Seq<char>) -> bool {
    codec_ext_token(lower_seq(e))
}

/// Relies on `ImageFormat::from_extension`: it lowercases the token (ASCII)
/// and matches it against its fixed list of extensions; no hooks are
/// consulted.
#[verifier::external_body]
pub(crate) fn extension_recognized(ext: &str) -> (r: bool)
    ensures
        r == codec_recognizes(ext@),
{
    image::ImageFormat::from_extension(ext).is_some()
}

/// Whether the codec layer encodes an image of the given width, height and
/// color-type tag under the format selected for the extension. Encoders
/// consult no hooks, and accept or reject by format, dimensions and color
/// type alone (dimension limits, color support after conversion), never by
/// pixel contents, so this is a function of these four values.
pub uninterp spec fn encode_ok(width: int, height: int, color: u8, ext: Seq<char>) -> bool;

/// Relies on `DynamicImage::write_to` with the format that
/// `ImageFormat::from_extension` selects for `ext`. `write_to` converts the
/// color type where the chosen encoder needs it and then succeeds or fails
/// by format, dimensions and converted color type only; `encode_ok` names
/// that verdict, well defined because the fields of `Image` always equal
/// the held data's real dimensions and color.
#[verifier::external_body]
pub(crate) fn encode_image(img: &Image, ext: &str) -> (r: Result<Vec<u8>, String>)
    requires
        codec_recognizes(ext@),
    ensures
        r is Ok <==> encode_ok(
            img.spec_width() as int,
            img.spec_height() as int,
            img.spec_color(),
            ext@,
        ),
{
    let format = match image::ImageFormat::from_extension(ext) {
        Some(f) => f,
        None => return Err("unrecognized output extension".to_string()),
    };
    let mut sink = std::io::Cursor::new(Vec::new());
    match img.data.write_to(&mut sink, format) {
        Ok(()) => Ok(sink.into_inner()),
        Err(e) => Err(format!("{e}")),
    }
}

} // verus!
